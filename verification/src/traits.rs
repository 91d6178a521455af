//! Provider roles that hosts and other backends implement.
use vstd::prelude::*;

use crate::error::{OperationId, ProviderError};
use crate::mock::{mode_error, MockProvider, MockState};
use crate::text::concat3;
use crate::wayland_output_management::WlrOutputManagementSupport;

verus! {

/// Global hotkeys.
pub trait HotkeyProvider {
    /// Whether the provider can take one more operation.
    spec fn accepts_operation(&self) -> bool;

    /// Register a global action.
    fn bind(&mut self, action: &str, callback_id: &str) -> (r: Result<OperationId, ProviderError>)
        requires
            old(self).accepts_operation(),
    ;

    /// Remove a registration.
    fn unbind(&mut self, operation: &OperationId) -> (r: Result<(), ProviderError>)
        requires
            old(self).accepts_operation(),
    ;
}

impl HotkeyProvider for MockProvider {
    open spec fn accepts_operation(&self) -> bool {
        self.state.ops < u64::MAX
    }

    /// A counted mutation whose operation id is `action:callback_id`.
    fn bind(&mut self, action: &str, callback_id: &str) -> (r: Result<OperationId, ProviderError>)
        ensures
            match mode_error(old(self).state.error_mode) {
                Some(e) => r matches Err(x) && x@ == e && final(self).state == old(self).state,
                None => r matches Ok(id) && id.0@ == action@ + ":"@ + callback_id@ && final(self).state == (
                MockState { ops: (old(self).state.ops + 1) as u64, ..old(self).state }),
            },
    {
        match self.begin_mutation() {
            Err(e) => Err(e),
            Ok(()) => Ok(OperationId(concat3(action, ":", callback_id))),
        }
    }

    /// A counted mutation that changes nothing else.
    fn unbind(&mut self, operation: &OperationId) -> (r: Result<(), ProviderError>)
        ensures
            match mode_error(old(self).state.error_mode) {
                Some(e) => r matches Err(x) && x@ == e && final(self).state == old(self).state,
                None => r is Ok && final(self).state == (MockState {
                    ops: (old(self).state.ops + 1) as u64,
                    ..old(self).state
                }),
            },
    {
        self.begin_mutation()
    }
}

/// A source of transport-level wlr output-management support, read from one
/// authoritative registry snapshot.
pub trait WlrOutputManagementSource {
    /// Read one registry snapshot and classify manager support.
    fn output_management_support(&self) -> Result<WlrOutputManagementSupport, ProviderError>;
}

} // verus!
