//! Three policies for reducing a sequence of independent outcomes to one:
//! fail-fast, keep only the successes, and partition into both.

use crate::parse::{i32_value, parse_byte, parse_number, u8_value};
use crate::taxonomy::DoubleError;
use vstd::prelude::*;

verus! {

/// The success payloads of `s`, in order.
pub open spec fn oks<T, E>(s: Seq<Result<T, E>>) -> Seq<T>
    decreases s.len(),
{
    if s.len() == 0 {
        Seq::empty()
    } else {
        match s.last() {
            Ok(v) => oks(s.drop_last()).push(v),
            Err(_) => oks(s.drop_last()),
        }
    }
}

/// The failure payloads of `s`, in order.
pub open spec fn errs<T, E>(s: Seq<Result<T, E>>) -> Seq<E>
    decreases s.len(),
{
    if s.len() == 0 {
        Seq::empty()
    } else {
        match s.last() {
            Ok(_) => errs(s.drop_last()),
            Err(e) => errs(s.drop_last()).push(e),
        }
    }
}

/// Every element of `s` is a success.
pub open spec fn all_ok<T, E>(s: Seq<Result<T, E>>) -> bool {
    forall|i: int| 0 <= i < s.len() ==> #[trigger] s[i] is Ok
}

/// `e` is the failure of the first failing element of `s`.
pub open spec fn first_failure<T, E>(s: Seq<Result<T, E>>, e: E) -> bool {
    exists|k: int|
        0 <= k < s.len() && #[trigger] s[k] == Err::<T, E>(e) && all_ok(s.take(k))
}

proof fn lemma_take_last<A>(s: Seq<A>, i: int)
    requires
        0 <= i < s.len(),
    ensures
        s.take(i + 1).drop_last() == s.take(i),
        s.take(i + 1).last() == s[i],
{
    assert(s.take(i + 1).drop_last() =~= s.take(i));
}

/// `Ok` with every success payload in order when every element succeeds;
/// otherwise the failure of the first failing element.
pub fn collect_all<T, E>(items: Vec<Result<T, E>>) -> (r: Result<Vec<T>, E>)
    ensures
        r is Ok <==> all_ok(items@),
        r is Ok ==> r->Ok_0@ == oks(items@),
        r is Err ==> first_failure(items@, r->Err_0),
{
    let ghost s = items@;
    let mut out: Vec<T> = Vec::new();
    for x in it: items.into_iter()
        invariant
            it.seq() == s,
            out@ == oks(s.take(it.index() as int)),
            all_ok(s.take(it.index() as int)),
    {
        proof {
            lemma_take_last(s, it.index() as int);
        }
        match x {
            Ok(v) => {
                out.push(v);
            },
            Err(e) => {
                assert(s[it.index() as int] == Err::<T, E>(e));
                return Err(e);
            },
        }
        assert(all_ok(s.take(it.index() + 1))) by {
            assert forall|i: int| 0 <= i < it.index() + 1 implies #[trigger] s.take(
                it.index() + 1,
            )[i] is Ok by {
                if i < it.index() {
                    assert(s.take(it.index() + 1)[i] == s.take(it.index() as int)[i]);
                }
            }
        }
    }
    assert(s.take(s.len() as int) =~= s);
    Ok(out)
}

/// The success payloads of `items`, in order; failures are dropped.
pub fn filter_successes<T, E>(items: Vec<Result<T, E>>) -> (r: Vec<T>)
    ensures
        r@ == oks(items@),
{
    let ghost s = items@;
    let mut out: Vec<T> = Vec::new();
    for x in it: items.into_iter()
        invariant
            it.seq() == s,
            out@ == oks(s.take(it.index() as int)),
    {
        proof {
            lemma_take_last(s, it.index() as int);
        }
        match x {
            Ok(v) => {
                out.push(v);
            },
            Err(_) => {},
        }
    }
    assert(s.take(s.len() as int) =~= s);
    out
}

/// The success payloads and the failure payloads of `items`, each in its
/// original relative order.
pub fn partition<T, E>(items: Vec<Result<T, E>>) -> (r: (Vec<T>, Vec<E>))
    ensures
        r.0@ == oks(items@),
        r.1@ == errs(items@),
{
    let ghost s = items@;
    let mut good: Vec<T> = Vec::new();
    let mut bad: Vec<E> = Vec::new();
    for x in it: items.into_iter()
        invariant
            it.seq() == s,
            good@ == oks(s.take(it.index() as int)),
            bad@ == errs(s.take(it.index() as int)),
    {
        proof {
            lemma_take_last(s, it.index() as int);
        }
        match x {
            Ok(v) => {
                good.push(v);
            },
            Err(e) => {
                bad.push(e);
            },
        }
    }
    assert(s.take(s.len() as int) =~= s);
    (good, bad)
}

/// Which elements of `s` are successes.
pub open spec fn ok_mask<T, E>(s: Seq<Result<T, E>>) -> Seq<bool> {
    s.map_values(|r: Result<T, E>| r is Ok)
}

/// Rebuilds a sequence of outcomes from a success mask, taking the next
/// success payload where the mask is true and the next failure payload
/// where it is false.
pub open spec fn interleave<T, E>(mask: Seq<bool>, good: Seq<T>, bad: Seq<E>) -> Seq<Result<T, E>>
    decreases mask.len(),
{
    if mask.len() == 0 {
        Seq::empty()
    } else if mask.last() {
        interleave(mask.drop_last(), good.drop_last(), bad).push(Ok(good.last()))
    } else {
        interleave(mask.drop_last(), good, bad.drop_last()).push(Err(bad.last()))
    }
}

/// Partitioning loses nothing: the successes and the failures together are
/// as many as the input, and putting them back at the positions that the
/// input's success mask gives rebuilds the input exactly.
pub proof fn lemma_partition_rebuilds<T, E>(s: Seq<Result<T, E>>)
    ensures
        oks(s).len() + errs(s).len() == s.len(),
        interleave(ok_mask(s), oks(s), errs(s)) == s,
    decreases s.len(),
{
    if s.len() > 0 {
        let init = s.drop_last();
        lemma_partition_rebuilds(init);
        assert(ok_mask(s).drop_last() =~= ok_mask(init));
        match s.last() {
            Ok(v) => {
                assert(oks(s).drop_last() =~= oks(init));
            },
            Err(e) => {
                assert(errs(s).drop_last() =~= errs(init));
            },
        }
        assert(interleave(ok_mask(s), oks(s), errs(s)) =~= s);
    } else {
        assert(interleave(ok_mask(s), oks(s), errs(s)) =~= s);
    }
}

/// Reading `s` as an `i32`: the value, or the text that could not be read.
pub open spec fn read_outcome(s: Seq<char>) -> Result<i32, Seq<char>> {
    match i32_value(s) {
        Some(v) => Ok(v),
        None => Err(s),
    }
}

/// Reading each of `strs`, in order.
pub open spec fn read_all(strs: Seq<&str>) -> Seq<Result<i32, Seq<char>>> {
    strs.map_values(|t: &str| read_outcome(t@))
}

/// Reading `s` as a `u8`: the value, or the text that could not be read.
pub open spec fn read_byte_outcome(s: Seq<char>) -> Result<u8, Seq<char>> {
    match u8_value(s) {
        Some(v) => Ok(v),
        None => Err(s),
    }
}

/// Reading each of `strs` as a `u8`, in order.
pub open spec fn read_all_bytes(strs: Seq<&str>) -> Seq<Result<u8, Seq<char>>> {
    strs.map_values(|t: &str| read_byte_outcome(t@))
}

/// `e` is the conversion failure raised by reading `text`.
pub open spec fn conversion_of(e: DoubleError, text: Seq<char>) -> bool {
    e is Parse && e->Parse_0.text_view() == text
}

/// Reads every string as an `i32`, stopping at the first that fails; that
/// failure, widened to a `DoubleError`, is the result.
pub fn parse_all(strs: &Vec<&str>) -> (r: Result<Vec<i32>, DoubleError>)
    ensures
        r is Ok <==> all_ok(read_all(strs@)),
        r is Ok ==> r->Ok_0@ == oks(read_all(strs@)),
        r is Err ==> r->Err_0 is Parse && first_failure(
            read_all(strs@),
            r->Err_0->Parse_0.text_view(),
        ),
{
    let ghost o = read_all(strs@);
    let mut out: Vec<i32> = Vec::new();
    let mut i: usize = 0;
    while i < strs.len()
        invariant
            i <= strs.len(),
            o == read_all(strs@),
            out@ == oks(o.take(i as int)),
            all_ok(o.take(i as int)),
        decreases strs.len() - i,
    {
        proof {
            lemma_take_last(o, i as int);
        }
        match parse_number(strs[i]) {
            Ok(v) => {
                out.push(v);
            },
            Err(m) => {
                assert(o[i as int] == Err::<i32, Seq<char>>(m.text_view()));
                return Err(DoubleError::from(m));
            },
        }
        assert(all_ok(o.take(i + 1))) by {
            assert forall|k: int| 0 <= k < i + 1 implies #[trigger] o.take(i + 1)[k] is Ok by {
                if k < i {
                    assert(o.take(i + 1)[k] == o.take(i as int)[k]);
                }
            }
        }
        i = i + 1;
    }
    assert(o.take(o.len() as int) =~= o);
    Ok(out)
}

/// The values of the strings that read as an `i32`, in order; the others are
/// dropped.
pub fn parse_successes(strs: &Vec<&str>) -> (r: Vec<i32>)
    ensures
        r@ == oks(read_all(strs@)),
{
    let ghost o = read_all(strs@);
    let mut out: Vec<i32> = Vec::new();
    let mut i: usize = 0;
    while i < strs.len()
        invariant
            i <= strs.len(),
            o == read_all(strs@),
            out@ == oks(o.take(i as int)),
        decreases strs.len() - i,
    {
        proof {
            lemma_take_last(o, i as int);
        }
        match parse_number(strs[i]) {
            Ok(v) => {
                out.push(v);
            },
            Err(_) => {},
        }
        i = i + 1;
    }
    assert(o.take(o.len() as int) =~= o);
    out
}

/// The values of the strings that read as a `u8`, and a conversion failure
/// for each of the others, each in order.
pub fn parse_partition(strs: &Vec<&str>) -> (r: (Vec<u8>, Vec<DoubleError>))
    ensures
        r.0@ == oks(read_all_bytes(strs@)),
        r.1@.len() == errs(read_all_bytes(strs@)).len(),
        forall|j: int|
            0 <= j < r.1@.len() ==> conversion_of(#[trigger] r.1@[j], errs(read_all_bytes(strs@))[j]),
{
    let ghost o = read_all_bytes(strs@);
    let mut good: Vec<u8> = Vec::new();
    let mut bad: Vec<DoubleError> = Vec::new();
    let mut i: usize = 0;
    while i < strs.len()
        invariant
            i <= strs.len(),
            o == read_all_bytes(strs@),
            good@ == oks(o.take(i as int)),
            bad@.len() == errs(o.take(i as int)).len(),
            forall|j: int|
                0 <= j < bad@.len() ==> conversion_of(#[trigger] bad@[j], errs(o.take(i as int))[j]),
        decreases strs.len() - i,
    {
        proof {
            lemma_take_last(o, i as int);
        }
        match parse_byte(strs[i]) {
            Ok(v) => {
                good.push(v);
            },
            Err(m) => {
                bad.push(DoubleError::from(m));
            },
        }
        i = i + 1;
    }
    assert(o.take(o.len() as int) =~= o);
    (good, bad)
}

} // verus!
