use vstd::prelude::*;

pub mod http;
pub mod tavily;

verus! {
}
