//! Default configuration values used when no override is supplied.

use vstd::prelude::*;

verus! {

pub const DEFAULT_APP_PORT: u16 = 8000;

pub const DEFAULT_CHROME_MAX_COUNT: u16 = 16;

} // verus!
