//! Checks on the parts of the configuration that end up in the installed
//! system.

use vstd::prelude::*;
use crate::error::{ValidationError, ValidationErrorView};
use crate::state::{InstallerState, InstallerStateView, NetworkConfig, NetworkConfigView};

verus! {

/// Whether the locale of `state` can be applied: it needs a language and a
/// region.
pub open spec fn locale_validity(state: InstallerStateView) -> Result<(), ValidationErrorView> {
    if state.locale.language.len() == 0 {
        Err(ValidationErrorView::EmptyLocaleLanguage)
    } else if state.locale.region.len() == 0 {
        Err(ValidationErrorView::EmptyLocaleRegion)
    } else {
        Ok(())
    }
}

/// Whether `network` can be applied: it needs a hostname.
pub open spec fn network_validity(network: NetworkConfigView) -> Result<(), ValidationErrorView> {
    if network.hostname.len() == 0 {
        Err(ValidationErrorView::EmptyHostname)
    } else {
        Ok(())
    }
}

/// Checks the locale of `state` for the system below `_root`.
pub fn apply_locale(_root: &str, state: &InstallerState) -> (res: Result<(), ValidationError>)
    ensures
        match res {
            Ok(()) => locale_validity(state@) is Ok,
            Err(error) => locale_validity(state@) == Err::<(), ValidationErrorView>(error@),
        },
{
    if state.locale.language.as_str().is_empty() {
        return Err(ValidationError::EmptyLocaleLanguage);
    }
    if state.locale.region.as_str().is_empty() {
        return Err(ValidationError::EmptyLocaleRegion);
    }
    Ok(())
}

/// Checks the network settings for the system below `_root`.
pub fn configure_network(_root: &str, network: &NetworkConfig) -> (res: Result<
    (),
    ValidationError,
>)
    ensures
        match res {
            Ok(()) => network_validity(network@) is Ok,
            Err(error) => network_validity(network@) == Err::<(), ValidationErrorView>(error@),
        },
{
    if network.hostname.as_str().is_empty() {
        return Err(ValidationError::EmptyHostname);
    }
    Ok(())
}

} // verus!
