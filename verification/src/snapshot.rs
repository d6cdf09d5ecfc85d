//! An immutable snapshot of the process environment.  The catalog and the
//! invocation compiler only ever read the environment through one snapshot
//! taken at the start of an invocation, so resolution is a pure function of
//! an explicit input rather than of ambient global state.

use vstd::prelude::*;
use crate::text::str_eq;

verus! {

/// One environment variable: its name and its value.
pub struct EnvVar {
    pub name: String,
    pub value: String,
}

/// A snapshot of the environment: an ordered list of bindings.
pub struct EnvSnapshot {
    pub vars: Vec<EnvVar>,
}

impl View for EnvVar {
    type V = (Seq<char>, Seq<char>);

    open spec fn view(&self) -> (Seq<char>, Seq<char>) {
        (self.name@, self.value@)
    }
}

impl View for EnvSnapshot {
    type V = Seq<(Seq<char>, Seq<char>)>;

    open spec fn view(&self) -> Seq<(Seq<char>, Seq<char>)> {
        self.vars@.map_values(|v: EnvVar| v@)
    }
}

/// The value bound to `name`: the first binding wins, and an unset name
/// resolves to the empty string rather than failing.
pub open spec fn spec_env_get(vars: Seq<(Seq<char>, Seq<char>)>, name: Seq<char>) -> Seq<char>
    decreases vars.len(),
{
    if vars.len() == 0 {
        Seq::empty()
    } else if vars[0].0 == name {
        vars[0].1
    } else {
        spec_env_get(vars.drop_first(), name)
    }
}

impl EnvSnapshot {
    /// Looks a variable up in the snapshot.
    pub fn get(&self, name: &str) -> (r: String)
        ensures
            r@ == spec_env_get(self@, name@),
    {
        let mut i: usize = 0;
        proof {
            assert(self@.skip(0) =~= self@);
        }
        while i < self.vars.len()
            invariant
                i <= self.vars.len(),
                self@.len() == self.vars@.len(),
                spec_env_get(self@, name@) == spec_env_get(self@.skip(i as int), name@),
            decreases self.vars.len() - i,
        {
            proof {
                assert(self@.skip(i as int)[0] == self@[i as int]);
            }
            if str_eq(self.vars[i].name.as_str(), name) {
                return self.vars[i].value.clone();
            }
            proof {
                assert(self@.skip(i as int).drop_first() =~= self@.skip(i as int + 1));
            }
            i += 1;
        }
        proof {
            assert(self@.skip(i as int).len() == 0);
        }
        String::new()
    }
}

} // verus!
