//! The absent/present container: fallbacks, lazy fallbacks, in-place
//! defaults, and chains of projections that stop at the first absent link.

use crate::text::same_text;
use vstd::string::StringExecFns;
use vstd::prelude::*;

verus! {

/// `o` if it is present, else `fallback`.
pub fn or<T>(o: Option<T>, fallback: Option<T>) -> (r: Option<T>)
    ensures
        r == (match o {
            Some(v) => Some(v),
            None => fallback,
        }),
{
    match o {
        Some(v) => Some(v),
        None => fallback,
    }
}

/// `o` if it is present, else what `produce` returns; `produce` is called
/// only when `o` is absent.
pub fn or_else<T, F: FnOnce() -> Option<T>>(o: Option<T>, produce: F) -> (r: Option<T>)
    requires
        o is None ==> produce.requires(()),
    ensures
        o is Some ==> r == o,
        o is None ==> produce.ensures((), r),
{
    match o {
        Some(v) => Some(v),
        None => produce(),
    }
}

/// Stores `value` in `o` if it is absent; a present value is kept. Returns
/// the value `o` now holds.
pub fn get_or_insert<T>(o: &mut Option<T>, value: T) -> (r: &T)
    ensures
        *r == (match *old(o) {
            Some(v) => v,
            None => value,
        }),
        *final(o) == Some(*r),
{
    o.get_or_insert(value)
}

/// As `get_or_insert`, but the value is made by `produce`, which runs only
/// when `o` is absent.
pub fn get_or_insert_with<T, F: FnOnce() -> T>(o: &mut Option<T>, produce: F) -> (r: &T)
    requires
        *old(o) is None ==> produce.requires(()),
    ensures
        *old(o) is Some ==> *r == old(o)->0,
        *old(o) is None ==> produce.ensures((), *r),
        *final(o) == Some(*r),
{
    let v = match o.take() {
        Some(v) => v,
        None => produce(),
    };
    o.insert(v)
}

/// `vals` records a walk along the first `k` links of a chain that starts at
/// `start`: link `j` was handed `vals[j]` and returned `Some(vals[j + 1])`.
pub open spec fn walked<T, F: Fn(usize, T) -> Option<T>>(
    step: F,
    start: T,
    vals: Seq<T>,
    k: int,
) -> bool {
    &&& vals.len() == k + 1
    &&& vals[0] == start
    &&& forall|j: int|
        0 <= j < k ==> #[trigger] step.ensures((j as usize, vals[j]), Some(vals[j + 1]))
}

/// Follows a chain of `links` projections from `start`: link `i` is
/// `step(i, _)`. Returns the final value and how many links were evaluated.
/// The whole chain is present iff every link is; the first absent link ends
/// it, and no later link is evaluated.
pub fn project_chain<T, F: Fn(usize, T) -> Option<T>>(start: Option<T>, links: usize, step: F) -> (r: (
    Option<T>,
    usize,
))
    requires
        forall|i: usize, v: T| i < links ==> step.requires((i, v)),
    ensures
        r.1 <= links,
        start is None ==> r.0 is None && r.1 == 0,
        r.0 is Some ==> start is Some && r.1 == links && exists|vals: Seq<T>|
            #[trigger] walked(step, start->0, vals, links as int) && r.0->0 == vals[links as int],
        start is Some && r.0 is None ==> 1 <= r.1 && exists|vals: Seq<T>|
            #[trigger] walked(step, start->0, vals, r.1 - 1) && step.ensures(
                ((r.1 - 1) as usize, vals[r.1 - 1]),
                None,
            ),
{
    let mut cur = match start {
        Some(v) => v,
        None => {
            return (None, 0);
        },
    };
    let ghost vals: Seq<T> = seq![cur];
    let mut i: usize = 0;
    while i < links
        invariant
            i <= links,
            forall|i: usize, v: T| i < links ==> step.requires((i, v)),
            start is Some,
            walked(step, start->0, vals, i as int),
            vals[i as int] == cur,
        decreases links - i,
    {
        let next = step(i, cur);
        match next {
            Some(v) => {
                proof {
                    let old_vals = vals;
                    vals = vals.push(v);
                    assert forall|j: int| 0 <= j < i + 1 implies #[trigger] step.ensures(
                        (j as usize, vals[j]),
                        Some(vals[j + 1]),
                    ) by {
                        if j < i {
                            assert(vals[j] == old_vals[j]);
                            assert(vals[j + 1] == old_vals[j + 1]);
                        }
                    }
                }
                cur = v;
                i = i + 1;
            },
            None => {
                assert(walked(step, start->0, vals, (i + 1) - 1));
                return (None, i + 1);
            },
        }
    }
    (Some(cur), i)
}

#[derive(Debug, Clone, Copy, PartialEq, Eq)]
pub struct PhoneNumber {
    pub area_code: Option<u8>,
    pub number: u32,
}

#[derive(Debug, Clone, Copy, PartialEq, Eq)]
pub struct Job {
    pub phone_number: Option<PhoneNumber>,
}

#[derive(Debug, Clone, Copy, PartialEq, Eq)]
pub struct Person {
    pub job: Option<Job>,
}

impl Person {
    /// The area code of the phone number of this person's job, if every link
    /// of that chain is present.
    pub open spec fn area_code_spec(&self) -> Option<u8> {
        match self.job {
            Some(job) => match job.phone_number {
                Some(phone) => phone.area_code,
                None => None,
            },
            None => None,
        }
    }

    /// The area code of the phone number of this person's job: absent as soon
    /// as the job, its phone number or the area code is absent.
    pub fn work_phone_area_code(&self) -> (r: Option<u8>)
        ensures
            r == self.area_code_spec(),
    {
        self.job?.phone_number?.area_code
    }
}

/// Looks up the work area code of a person whose every link is present.
pub fn unpacking_options_with() -> (r: Option<u8>)
    ensures
        r == Some(61u8),
{
    let p = Person {
        job: Some(
            Job { phone_number: Some(PhoneNumber { area_code: Some(61), number: 439222222 }) },
        ),
    };
    p.work_phone_area_code()
}

#[derive(Debug, Clone, Copy, PartialEq, Eq)]
pub enum Food {
    Apple,
    Carrot,
    Potato,
}

#[derive(Debug, Clone, Copy, PartialEq, Eq)]
pub struct Peeled(pub Food);

#[derive(Debug, Clone, Copy, PartialEq, Eq)]
pub struct Chopped(pub Food);

#[derive(Debug, Clone, Copy, PartialEq, Eq)]
pub struct Cooked(pub Food);

/// Peels the food, if there is any.
pub fn peel(food: Option<Food>) -> (r: Option<Peeled>)
    ensures
        r == (match food {
            Some(f) => Some(Peeled(f)),
            None => None,
        }),
{
    match food {
        Some(f) => Some(Peeled(f)),
        None => None,
    }
}

/// Chops the peeled food, if there is any.
pub fn chop(peeled: Option<Peeled>) -> (r: Option<Chopped>)
    ensures
        r == (match peeled {
            Some(Peeled(f)) => Some(Chopped(f)),
            None => None,
        }),
{
    match peeled {
        Some(Peeled(f)) => Some(Chopped(f)),
        None => None,
    }
}

/// Cooks the chopped food, if there is any.
pub fn cook(chopped: Option<Chopped>) -> (r: Option<Cooked>)
    ensures
        r == (match chopped {
            Some(Chopped(f)) => Some(Cooked(f)),
            None => None,
        }),
{
    chopped.map(|c: Chopped| -> (r: Cooked)
        ensures
            r == Cooked(c.0),
        { Cooked(c.0) })
}

/// Peels, chops and cooks in one pass: absent food stays absent.
pub fn process(food: Option<Food>) -> (r: Option<Cooked>)
    ensures
        r == (match food {
            Some(f) => Some(Cooked(f)),
            None => None,
        }),
{
    food.map(|f: Food| -> (r: Peeled)
        ensures
            r == Peeled(f),
        { Peeled(f) }).map(|p: Peeled| -> (r: Chopped)
        ensures
            r == Chopped(p.0),
        { Chopped(p.0) }).map(|c: Chopped| -> (r: Cooked)
        ensures
            r == Cooked(c.0),
        { Cooked(c.0) })
}

/// What a polite adult says when handed `drink`.
pub open spec fn adult_reply(drink: Option<Seq<char>>) -> Seq<char> {
    match drink {
        Some(d) => if d == "lemonade"@ {
            "Yuck! Too sugary."@
        } else {
            d + "? How nice"@
        },
        None => "No drink? Oh well."@,
    }
}

/// The reply to being offered `drink`, which may be nothing at all.
pub fn give_adult(drink: Option<&str>) -> (r: String)
    ensures
        r@ == adult_reply(
            match drink {
                Some(d) => Some(d@),
                None => None,
            },
        ),
{
    match drink {
        Some(d) => {
            if same_text(d, "lemonade") {
                "Yuck! Too sugary.".to_owned()
            } else {
                let mut r = d.to_owned();
                r.append("? How nice");
                r
            }
        },
        None => "No drink? Oh well.".to_owned(),
    }
}

/// The reply to a drink that must be present and must not be lemonade.
pub fn drink(offered: Option<&str>) -> (r: String)
    requires
        offered is Some,
        offered->0@ != "lemonade"@,
    ensures
        r@ == "I love "@ + offered->0@ + "s!!!!!"@,
{
    let inside = offered.unwrap();
    let mut r = "I love ".to_owned();
    r.append(inside);
    r.append("s!!!!!");
    r
}

} // verus!
