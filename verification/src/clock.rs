use vstd::prelude::*;

verus! {

/// Relies on chrono's `Local::now` and `DateTime::format`: reads the wall
/// clock and renders it as `%Y-%m-%d %H:%M:%S`. The result depends on the
/// moment of the call, so nothing is promised about its value.
#[verifier::external_body]
pub(crate) fn now_timestamp() -> String {
    chrono::Local::now().format("%Y-%m-%d %H:%M:%S").to_string()
}

} // verus!
