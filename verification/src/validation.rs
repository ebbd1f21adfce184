//! The check a record must pass before the wizard hands it out.

use vstd::prelude::*;
use crate::record::ConfigView;
use crate::session::App;

verus! {

/// Why a record is turned down, or `None` for a record that passes.
///
/// The name is looked at first, then the owner, then the environments; the
/// first one found empty gives the reason. Nothing else is checked: the
/// resources may be empty, and neither text is looked into.
pub open spec fn rejection(config: ConfigView) -> Option<Seq<char>> {
    if config.resource_name.len() == 0 {
        Some("Resource name cannot be empty."@)
    } else if config.owner_email.len() == 0 {
        Some("Owner email cannot be empty."@)
    } else if config.environments.len() == 0 {
        Some("At least one environment must be selected"@)
    } else {
        None
    }
}

/// Checks the record of a session, giving the reason where it fails.
pub fn validate_inputs(app: &App) -> (verdict: Result<(), String>)
    ensures
        verdict.is_ok() <==> rejection(app@.config).is_none(),
        verdict matches Err(reason) ==> rejection(app@.config) == Some(reason@),
{
    if app.config.resource_name.as_str().is_empty() {
        return Err("Resource name cannot be empty.".to_owned());
    }
    if app.config.owner_email.as_str().is_empty() {
        return Err("Owner email cannot be empty.".to_owned());
    }
    if app.config.environments.len() < 1 {
        return Err("At least one environment must be selected".to_owned());
    }
    Ok(())
}

/// A record passes exactly when its name and its owner are not empty and
/// at least one environment is selected.
pub proof fn lemma_passes_iff_nothing_empty(config: ConfigView)
    ensures
        rejection(config).is_none() <==> config.resource_name.len() > 0 && config.owner_email.len()
            > 0 && config.environments.len() > 0,
{
}

/// With an empty name the reason is the one about the name, whatever the
/// owner and the environments are.
pub proof fn lemma_name_is_checked_first(config: ConfigView)
    requires
        config.resource_name.len() == 0,
    ensures
        rejection(config) == Some("Resource name cannot be empty."@),
{
}

} // verus!
