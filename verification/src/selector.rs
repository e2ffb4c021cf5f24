use vstd::prelude::*;

use crate::ConfigError;

verus! {

/// An immutable, startup-loaded ordered list of URLs, one of which is handed
/// out per call, chosen uniformly at random. Emptiness is rejected once at
/// load time, never checked per call.
pub struct RandomSelector {
    pub urls: Vec<String>,
}

impl RandomSelector {
    /// A selector always holds at least one URL.
    pub open spec fn wf(self) -> bool {
        self.urls@.len() > 0
    }

    /// Takes ownership of the URL list; an empty list is a configuration
    /// error, and no selector is handed out for it.
    pub fn load(urls: Vec<String>) -> (r: Result<RandomSelector, ConfigError>)
        ensures
            match r {
                Ok(s) => s.urls@ == urls@ && s.wf(),
                Err(e) => e == ConfigError::EmptyUrlList,
            },
            (r is Err) <==> urls@.len() == 0,
    {
        if urls.len() == 0 {
            Err(ConfigError::EmptyUrlList)
        } else {
            Ok(RandomSelector { urls })
        }
    }

    /// Returns one of the held URLs, chosen uniformly at random.
    pub fn pick(&self) -> (r: &String)
        requires
            self.wf(),
        ensures
            exists|i: int| 0 <= i < self.urls@.len() && *r == self.urls@[i],
    {
        let i = random_below(self.urls.len());
        &self.urls[i]
    }
}

/// Relies on rand::random_range over `0..n`: returns a uniformly sampled
/// value of the range, and panics only when the range is empty, which the
/// precondition rules out. Uniformity is a property of the distribution, not
/// of any one call, so nothing more is promised of the result.
#[verifier::external_body]
fn random_below(n: usize) -> (r: usize)
    requires
        n >= 1,
    ensures
        r < n,
{
    rand::random_range(0..n)
}

} // verus!
