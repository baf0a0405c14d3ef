use vstd::prelude::*;

verus! {

/// A person known by a first and a last name.
pub struct Person {
    pub first: String,
    pub last: String,
}

impl Person {
    pub fn new(first: String, last: String) -> (r: Person)
        ensures
            r.first@ == first@,
            r.last@ == last@,
    {
        Person { first, last }
    }

    /// Takes the person apart into its first and last name.
    pub fn into_parts(self) -> (r: (String, String))
        ensures
            r.0@ == self.first@,
            r.1@ == self.last@,
    {
        let Person { first, last } = self;
        (first, last)
    }
}

/// A name with a first and a last part and a middle part that may be absent.
/// An absent middle name is a state of its own, apart from an empty one.
pub struct PersonalName {
    pub first_name: String,
    pub middle_name: Option<String>,
    pub last_name: String,
}

/// The middle name as text, or `None` where there is none.
pub open spec fn middle_view(m: Option<String>) -> Option<Seq<char>> {
    match m {
        Some(s) => Some(s@),
        None => None,
    }
}

impl View for PersonalName {
    type V = (Seq<char>, Option<Seq<char>>, Seq<char>);

    open spec fn view(&self) -> Self::V {
        (self.first_name@, middle_view(self.middle_name), self.last_name@)
    }
}

impl PersonalName {
    pub fn new(first_name: String, middle_name: Option<String>, last_name: String) -> (r: PersonalName)
        ensures
            r@ == (first_name@, middle_view(middle_name), last_name@),
    {
        PersonalName { first_name, middle_name, last_name }
    }

    /// Whether a middle name is present (an empty one counts as present).
    pub fn has_middle_name(&self) -> (r: bool)
        ensures
            r == (self@.1 is Some),
    {
        self.middle_name.is_some()
    }
}

/// A name without a middle name and one whose middle name is empty are
/// different values, and tell themselves apart.
pub proof fn absent_middle_name_is_not_empty(a: PersonalName, b: PersonalName)
    requires
        a.middle_name is None,
        b.middle_name is Some,
        b.middle_name->0@ == Seq::<char>::empty(),
    ensures
        a@ != b@,
        a@.1 != b@.1,
{
}

} // verus!
