//! Small language basics that callers of the algebra lean on: integer
//! bindings, owned boxes, blanket trait impls, supertraits and traits whose
//! methods share a name.

use vstd::string::StringExecFns;
use vstd::prelude::*;

verus! {

/// The sum of two `i32` that fit together in one.
pub fn learn_add_two(a: i32, b: i32) -> (r: i32)
    requires
        i32::MIN <= a + b <= i32::MAX,
    ensures
        r == a + b,
{
    a + b
}

/// Binds, rebinds and shadows a few integers and a flag; returns the final
/// value of each: the flag, the suffixed integer, the wide integer and the
/// reassigned one.
pub fn basic_operations() -> (r: (bool, i32, i64, i32))
    ensures
        r == (true, 5i32, 4294967296i64, 21i32),
{
    let logical: bool = true;
    let an_integer: i32 = 5i32;
    let mut inferred_type: i64 = 12;
    inferred_type = 4294967296i64;
    let mut mutable: i32 = 12;
    mutable = 21;
    (logical, an_integer, inferred_type, mutable)
}

/// Allocates an integer on the heap and hands back its value; the box is
/// freed when it goes out of scope.
fn create_box() -> (r: i32)
    ensures
        r == 3,
{
    let b = Box::new(3i32);
    *b
}

/// Allocates boxes in nested scopes and in a loop, each freed at the end of
/// its scope; returns how many were allocated.
pub fn raii() -> (r: u32)
    ensures
        r == 1002,
{
    let _box2 = Box::new(5i32);
    let mut made: u32 = 1;
    {
        let _box3 = Box::new(4i32);
        made = made + 1;
    }
    let mut i: u32 = 0;
    while i < 1000
        invariant
            i <= 1000,
            made == 2 + i,
        decreases 1000 - i,
    {
        create_box();
        made = made + 1;
        i = i + 1;
    }
    made
}

/// A value that cannot be copied.
pub struct Empty;

/// Another value that cannot be copied.
pub struct Null;

/// Consumes the receiver together with one more value.
pub trait DoubleDrop<T>: Sized {
    fn double_drop(self, other: T);
}

impl<T, U> DoubleDrop<T> for U {
    fn double_drop(self, _other: T) {
    }
}

/// Gives up both values at once; neither can be used afterwards.
pub fn traits(empty: Empty, null: Null) {
    empty.double_drop(null);
}

/// Something with a name.
pub trait Person {
    spec fn name_view(&self) -> Seq<char>;

    fn name(&self) -> (r: String)
        ensures
            r@ == self.name_view(),
    ;
}

/// A person who attends a university.
pub trait Student: Person {
    spec fn university_view(&self) -> Seq<char>;

    fn university(&self) -> (r: String)
        ensures
            r@ == self.university_view(),
    ;
}

/// A person with a favourite programming language.
pub trait Programmer: Person {
    spec fn fav_language_view(&self) -> Seq<char>;

    fn fav_language(&self) -> (r: String)
        ensures
            r@ == self.fav_language_view(),
    ;
}

/// A student who also programs, and has a username on a code host.
pub trait CompSciStudent: Programmer + Student {
    spec fn git_username_view(&self) -> Seq<char>;

    fn git_username(&self) -> (r: String)
        ensures
            r@ == self.git_username_view(),
    ;
}

/// A computer science student described by plain fields.
pub struct Graduate {
    pub name: String,
    pub university: String,
    pub fav_language: String,
    pub git_username: String,
}

impl Person for Graduate {
    open spec fn name_view(&self) -> Seq<char> {
        self.name@
    }

    fn name(&self) -> (r: String) {
        self.name.clone()
    }
}

impl Student for Graduate {
    open spec fn university_view(&self) -> Seq<char> {
        self.university@
    }

    fn university(&self) -> (r: String) {
        self.university.clone()
    }
}

impl Programmer for Graduate {
    open spec fn fav_language_view(&self) -> Seq<char> {
        self.fav_language@
    }

    fn fav_language(&self) -> (r: String) {
        self.fav_language.clone()
    }
}

impl CompSciStudent for Graduate {
    open spec fn git_username_view(&self) -> Seq<char> {
        self.git_username@
    }

    fn git_username(&self) -> (r: String) {
        self.git_username.clone()
    }
}

/// How a computer science student introduces themself.
pub open spec fn greeting<S: CompSciStudent>(s: &S) -> Seq<char> {
    "My name is "@ + s.name_view() + " and I attend "@ + s.university_view()
        + ". My favorite language is "@ + s.fav_language_view() + ". My Git username is "@
        + s.git_username_view()
}

/// The greeting of any computer science student, built from what each of its
/// supertraits provides.
pub fn supertraits<S: CompSciStudent>(student: &S) -> (r: String)
    ensures
        r@ == greeting(student),
{
    let mut r = "My name is ".to_owned();
    r.append(student.name().as_str());
    r.append(" and I attend ");
    r.append(student.university().as_str());
    r.append(". My favorite language is ");
    r.append(student.fav_language().as_str());
    r.append(". My Git username is ");
    r.append(student.git_username().as_str());
    r
}

/// A widget that shows a username.
pub trait UsernameWidget {
    spec fn username_view(&self) -> Seq<char>;

    fn get(&self) -> (r: String)
        ensures
            r@ == self.username_view(),
    ;
}

/// A widget that shows an age.
pub trait AgeWidget {
    spec fn age_view(&self) -> u8;

    fn get(&self) -> (r: u8)
        ensures
            r == self.age_view(),
    ;
}

/// A form with both widgets.
pub struct Form {
    pub username: String,
    pub age: u8,
}

impl UsernameWidget for Form {
    open spec fn username_view(&self) -> Seq<char> {
        self.username@
    }

    fn get(&self) -> (r: String) {
        self.username.clone()
    }
}

impl AgeWidget for Form {
    open spec fn age_view(&self) -> u8 {
        self.age
    }

    fn get(&self) -> (r: u8) {
        self.age
    }
}

/// Reads both widgets of `form`, naming each trait to pick its `get`.
pub fn disambiguating_overlaping_traits(form: &Form) -> (r: (String, u8))
    ensures
        r.0@ == form.username@,
        r.1 == form.age,
{
    let username = <Form as UsernameWidget>::get(form);
    let age = <Form as AgeWidget>::get(form);
    (username, age)
}

} // verus!
