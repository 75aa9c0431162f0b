//! The uniform way configuration nodes take updates: a slash-split path
//! selects a field, and the value's text is parsed into it.

use vstd::prelude::*;
use vstd::string::StringSliceAdditionalSpecFns;

verus! {

/// Why a configuration update was rejected.
#[derive(Copy, Clone, Debug, PartialEq, Eq, Structural)]
pub enum SetError {
    ExpectValue,
    MalformedPath,
    UnexpectedValue,
}

/// A configuration node that can take an update addressed by a path of
/// words.  Each implementation fixes the exact meaning of its updates with
/// `set_spec`, over the path's and the value's bytes.
pub trait Setter: Sized {
    /// The new node and the verdict of applying an update.
    spec fn set_spec(self, path: Seq<Seq<u8>>, value: Option<Seq<u8>>) -> (
        Self,
        Result<(), SetError>,
    );

    /// Apply an update; on a rejected update the node is unchanged.
    fn set(&mut self, path: &[&str], value: Option<&str>) -> (r: Result<(), SetError>)
        ensures
            *final(self) == old(self).set_spec(
                path@.map_values(|p: &str| p.spec_bytes()),
                match value {
                    Some(v) => Some(v.spec_bytes()),
                    None => None,
                },
            ).0,
            r == old(self).set_spec(
                path@.map_values(|p: &str| p.spec_bytes()),
                match value {
                    Some(v) => Some(v.spec_bytes()),
                    None => None,
                },
            ).1,
    ;
}

} // verus!
