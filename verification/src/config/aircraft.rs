//! Aircraft geometry configuration.

use vstd::prelude::*;
use vstd::string::StringSliceAdditionalSpecFns;
use crate::config::setter::{SetError, Setter};
use crate::text::bytes_eq;

verus! {

/// The supported airframe configurations.
#[derive(Copy, Clone, Debug, PartialEq, Eq, Structural)]
pub enum Configuration {
    Airplane,
}

impl Configuration {
    pub fn as_str(self) -> (r: &'static str)
        ensures
            r@ == "airplane"@,
    {
        match self {
            Self::Airplane => "airplane",
        }
    }
}

impl From<&str> for Configuration {
    /// Every known name, and any unknown one, selects the airplane frame.
    fn from(_string: &str) -> (r: Configuration) {
        Self::Airplane
    }
}

impl vstd::std_specs::convert::FromSpecImpl<&str> for Configuration {
    open spec fn obeys_from_spec() -> bool {
        true
    }

    open spec fn from_spec(_string: &str) -> Configuration {
        Configuration::Airplane
    }
}

/// Aircraft-level configuration.
#[derive(Copy, Clone, Debug, PartialEq, Eq, Structural)]
pub struct Aircraft {
    pub configuration: Configuration,
}

impl Default for Aircraft {
    fn default() -> (r: Self)
        ensures
            r == (Aircraft { configuration: Configuration::Airplane }),
    {
        Self { configuration: Configuration::Airplane }
    }
}

impl Setter for Aircraft {
    open spec fn set_spec(self, path: Seq<Seq<u8>>, value: Option<Seq<u8>>) -> (
        Self,
        Result<(), SetError>,
    ) {
        if path.len() >= 1 && path[0] == "configuration".spec_bytes() {
            match value {
                Some(_) => (Aircraft { configuration: Configuration::Airplane }, Ok(())),
                None => (self, Err(SetError::ExpectValue)),
            }
        } else {
            (self, Err(SetError::MalformedPath))
        }
    }

    fn set(&mut self, path: &[&str], value: Option<&str>) -> Result<(), SetError> {
        if path.len() >= 1 && bytes_eq(path[0].as_bytes(), "configuration".as_bytes()) {
            match value {
                Some(v) => {
                    self.configuration = Configuration::from(v);
                    Ok(())
                },
                None => Err(SetError::ExpectValue),
            }
        } else {
            Err(SetError::MalformedPath)
        }
    }
}

} // verus!
