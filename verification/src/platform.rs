use vstd::prelude::*;

verus! {

/// The platforms that content is archived from.
#[derive(Debug, Clone, Copy, PartialEq, Eq, Structural)]
pub enum Platform {
    Twitter,
}

impl Platform {
    pub open spec fn name(self) -> Seq<char> {
        match self {
            Platform::Twitter => "twitter"@,
        }
    }

    pub fn as_str(&self) -> (r: &'static str)
        ensures
            r@ == self.name(),
    {
        match self {
            Platform::Twitter => "twitter",
        }
    }
}

} // verus!
