use vstd::prelude::*;

verus! {

/// A named deployment target, such as "prod" or "staging".
pub struct Environment {
    name: String,
}

impl View for Environment {
    /// An environment is modelled by its name.
    type V = Seq<char>;

    closed spec fn view(&self) -> Seq<char> {
        self.name@
    }
}

impl Environment {
    /// Creates an environment that holds `name` verbatim.
    pub fn new(name: &str) -> (r: Self)
        ensures
            r@ == name@,
    {
        Environment { name: name.to_owned() }
    }

    /// The name the environment was created with.
    pub fn name(&self) -> (r: &str)
        ensures
            r@ == self@,
    {
        self.name.as_str()
    }
}

} // verus!
