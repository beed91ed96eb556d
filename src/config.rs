use vstd::prelude::*;

verus! {

/// A setting the environment does not provide.
#[derive(Clone, Debug)]
pub struct ConfigError(pub String);

impl ConfigError {
    pub fn message(&self) -> (r: String)
        ensures
            r@ == self.0@,
    {
        self.0.clone()
    }
}

} // verus!
