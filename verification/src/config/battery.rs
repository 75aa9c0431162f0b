//! Battery pack configuration: cell count and per-cell voltage limits.

use vstd::prelude::*;
use vstd::string::StringSliceAdditionalSpecFns;
use crate::config::setter::{SetError, Setter};
use crate::datastructures::decimal::{decimal_of_bytes, IntegerDecimal};
use crate::text::{bytes_eq, digits_val, is_digit_seq, parse_u32_bytes};

verus! {

/// Battery limits; voltages are per cell.
#[derive(Copy, Clone, Debug, PartialEq, Eq, Structural)]
pub struct Battery {
    pub cells: u8,
    pub min_cell_voltage: IntegerDecimal,
    pub max_cell_voltage: IntegerDecimal,
    pub warning_cell_voltage: IntegerDecimal,
}

impl Default for Battery {
    /// Cell count unknown, lithium-cell voltage window 3.3 to 4.2 volts
    /// with the warning at 3.5.
    fn default() -> (r: Self)
        ensures
            r == (Battery {
                cells: 0u8,
                min_cell_voltage: IntegerDecimal { value: 33, decimal_length: 1 },
                max_cell_voltage: IntegerDecimal { value: 42, decimal_length: 1 },
                warning_cell_voltage: IntegerDecimal { value: 35, decimal_length: 1 },
            }),
    {
        Self {
            cells: 0,
            min_cell_voltage: IntegerDecimal::new(33, 1),
            max_cell_voltage: IntegerDecimal::new(42, 1),
            warning_cell_voltage: IntegerDecimal::new(35, 1),
        }
    }
}

impl Setter for Battery {
    open spec fn set_spec(self, path: Seq<Seq<u8>>, value: Option<Seq<u8>>) -> (
        Self,
        Result<(), SetError>,
    ) {
        if path.len() == 0 {
            (self, Err(SetError::MalformedPath))
        } else {
            match value {
                None => (self, Err(SetError::ExpectValue)),
                Some(v) => {
                    if path[0] == "cells".spec_bytes() {
                        if is_digit_seq(v) && digits_val(v) <= 255 {
                            (Battery { cells: digits_val(v) as u8, ..self }, Ok(()))
                        } else {
                            (self, Err(SetError::UnexpectedValue))
                        }
                    } else if path[0] == "min-cell-voltage".spec_bytes() {
                        (Battery { min_cell_voltage: decimal_of_bytes(v), ..self }, Ok(()))
                    } else if path[0] == "max-cell-voltage".spec_bytes() {
                        (Battery { max_cell_voltage: decimal_of_bytes(v), ..self }, Ok(()))
                    } else if path[0] == "warning-cell-voltage".spec_bytes() {
                        (Battery { warning_cell_voltage: decimal_of_bytes(v), ..self }, Ok(()))
                    } else {
                        (self, Err(SetError::MalformedPath))
                    }
                },
            }
        }
    }

    fn set(&mut self, path: &[&str], value: Option<&str>) -> Result<(), SetError> {
        if path.len() == 0 {
            return Err(SetError::MalformedPath);
        }
        let value = match value {
            Some(v) => v,
            None => {
                return Err(SetError::ExpectValue);
            },
        };
        let key = path[0].as_bytes();
        if bytes_eq(key, "cells".as_bytes()) {
            match parse_u32_bytes(value.as_bytes()) {
                Some(v) => if v <= 255 {
                    self.cells = v as u8;
                    Ok(())
                } else {
                    Err(SetError::UnexpectedValue)
                },
                None => Err(SetError::UnexpectedValue),
            }
        } else if bytes_eq(key, "min-cell-voltage".as_bytes()) {
            self.min_cell_voltage = IntegerDecimal::from(value);
            Ok(())
        } else if bytes_eq(key, "max-cell-voltage".as_bytes()) {
            self.max_cell_voltage = IntegerDecimal::from(value);
            Ok(())
        } else if bytes_eq(key, "warning-cell-voltage".as_bytes()) {
            self.warning_cell_voltage = IntegerDecimal::from(value);
            Ok(())
        } else {
            Err(SetError::MalformedPath)
        }
    }
}

} // verus!
