pub mod classify;
pub mod dispatch;
pub mod paths;
pub mod resolve;
pub mod url_name;

use vstd::prelude::*;

verus! {

} // verus!
