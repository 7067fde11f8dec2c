//! The decisions around registering the screenshot shortcut: what a
//! request from the settings page leads to, and what a finished
//! registration leads to.  Registering with the system and saving the
//! settings happen outside; these functions take their results.

use vstd::prelude::*;
use crate::config::AppSettings;
use crate::hotkey::{
    binding_label, binding_problem, code_from_name, default_binding_view, BindingView,
    HotkeyBinding,
};
use crate::platform::Platform;
use crate::shortcut_settings::{binding_from_settings, binding_outcome, platform_modifier_mapping, previous_binding};
use crate::text::{concat2, owned, str_eq};

verus! {

broadcast use vstd::string::group_string_axioms;

/// A registration on its way: the binding asked for, the one to fall back
/// to if it fails, whether a success is saved to the settings, and whether
/// it is itself a fall-back.
#[derive(Clone, Debug)]
pub struct PendingRegistration {
    pub requested: HotkeyBinding,
    pub previous: Option<HotkeyBinding>,
    pub persist: bool,
    pub rollback: bool,
}

/// What a request from the settings page leads to.
#[derive(Clone, Debug)]
pub enum ShortcutRequest {
    /// A registration is already on its way; the request is dropped.
    Ignored,
    /// Nothing is registered; the status line says why.
    Status(String),
    /// A registration starts.
    Register(PendingRegistration),
}

/// What a finished registration leads to.
#[derive(Clone, Debug)]
pub enum RegistrationStep {
    /// The shortcut is active under `effective`, configured as `configured`.
    Active { configured: String, effective: String, status: String },
    /// The registration failed or could not be saved; `next` brings the
    /// previous shortcut back.
    Restore { status: String, next: PendingRegistration },
    /// No shortcut is active; `name`, when given, replaces the shortcut's
    /// name in the interface.
    Failed { name: Option<String>, status: String },
}

/// The binding of the given modifiers and key code name, or why there is
/// none.
pub open spec fn parts_outcome(
    control: bool,
    alt: bool,
    shift: bool,
    meta: bool,
    code_name: Seq<char>,
) -> Result<BindingView, Seq<char>> {
    match code_from_name(code_name) {
        None => Err("unsupported shortcut key: "@ + code_name),
        Some(code) => {
            let b = BindingView { control, alt, shift, meta, code };
            match binding_problem(b) {
                Some(message) => Err(message),
                None => Ok(b),
            }
        },
    }
}

/// The stored binding to fall back to, and whether it is `requested`.
pub open spec fn fallback_for(settings: AppSettings, requested: BindingView) -> (BindingView, bool) {
    match binding_outcome(settings.hotkeys.capture) {
        Ok(v) => (v, v == requested),
        Err(_) => (default_binding_view(), false),
    }
}

/// `p` registers `requested`, falls back to `previous` and saves a success.
pub open spec fn registers_and_saves(p: PendingRegistration, requested: BindingView, previous: BindingView) -> bool {
    &&& p.requested@ == requested
    &&& p.previous matches Some(q) && q@ == previous
    &&& p.persist
    &&& !p.rollback
}

/// The shortcut registered at startup: the saved one, or Print Screen with
/// the status that says why the saved one cannot be used.
pub fn startup_binding(settings: &AppSettings) -> (r: (HotkeyBinding, Option<String>))
    ensures
        match binding_outcome(settings.hotkeys.capture) {
            Ok(v) => r.0@ == v && r.1 is None,
            Err(message) => r.0@ == default_binding_view() && (r.1 matches Some(s) && s@
                == "Saved shortcut is invalid · "@ + message + " · using PrtSc until it is changed"@),
        },
{
    match binding_from_settings(settings) {
        Ok(binding) => (binding, None),
        Err(error) => {
            let mut status = concat2("Saved shortcut is invalid · ", error.as_str());
            status.append(" · using PrtSc until it is changed");
            (HotkeyBinding::capture_default(), Some(status))
        },
    }
}

/// What the interface shows while `requested` is being registered: the
/// shortcut's name, and a status unless the registration is a fall-back.
pub fn registration_started(requested: &HotkeyBinding, rollback: bool, platform: Platform) -> (r: (
    String,
    Option<String>,
))
    ensures
        r.0@ == "Registering "@ + binding_label(requested@, platform) + "…"@,
        rollback ==> r.1 is None,
        !rollback ==> (r.1 matches Some(s) && s@ == "Registering screenshot shortcut · "@
            + binding_label(requested@, platform)),
{
    let label = requested.display_label(platform);
    let mut name = concat2("Registering ", label.as_str());
    name.append("…");
    if rollback {
        (name, None)
    } else {
        (name, Some(concat2("Registering screenshot shortcut · ", label.as_str())))
    }
}

/// The retry button: register the saved shortcut again (Print Screen if it
/// cannot be used), without saving and with nothing to fall back to.
pub fn retry_requested(pending: bool, settings: &AppSettings) -> (r: ShortcutRequest)
    ensures
        pending ==> r is Ignored,
        !pending ==> (r matches ShortcutRequest::Register(p) && p.requested@ == (match binding_outcome(
            settings.hotkeys.capture,
        ) {
            Ok(v) => v,
            Err(_) => default_binding_view(),
        }) && p.previous is None && !p.persist && !p.rollback),
{
    if pending {
        return ShortcutRequest::Ignored;
    }
    let requested = match binding_from_settings(settings) {
        Ok(binding) => binding,
        Err(_) => HotkeyBinding::capture_default(),
    };
    ShortcutRequest::Register(
        PendingRegistration { requested, previous: None, persist: false, rollback: false },
    )
}

/// A recorded key press: `code_name` is the key's code name, `None` when
/// the key cannot be a shortcut.  On macOS the interface reports Command
/// as `control` and Control as `meta`; they are swapped back.
pub fn binding_requested(
    pending: bool,
    active: bool,
    settings: &AppSettings,
    platform: Platform,
    control: bool,
    alt: bool,
    shift: bool,
    meta: bool,
    code_name: Option<&str>,
) -> (r: ShortcutRequest)
    ensures
        pending ==> r is Ignored,
        !pending && code_name is None ==> (r matches ShortcutRequest::Status(s) && s@
            == "Unsupported shortcut key · choose another key"@),
        !pending && code_name is Some ==> {
            let (c, m) = if platform == Platform::MacOs {
                (meta, control)
            } else {
                (control, meta)
            };
            match parts_outcome(c, alt, shift, m, code_name->0@) {
                Err(message) => r matches ShortcutRequest::Status(s) && s@ == "Shortcut rejected · "@
                    + message,
                Ok(b) => {
                    let (previous, same) = fallback_for(*settings, b);
                    if same && active {
                        r matches ShortcutRequest::Status(s) && s@ == "Shortcut is already active"@
                    } else {
                        r matches ShortcutRequest::Register(p) && registers_and_saves(p, b, previous)
                    }
                },
            }
        },
{
    if pending {
        return ShortcutRequest::Ignored;
    }
    let name = match code_name {
        Some(name) => name,
        None => return ShortcutRequest::Status(owned("Unsupported shortcut key · choose another key")),
    };
    let (control, meta) = platform_modifier_mapping(platform, control, meta);
    let requested = match HotkeyBinding::from_parts(control, alt, shift, meta, name) {
        Ok(binding) => binding,
        Err(error) => return ShortcutRequest::Status(concat2("Shortcut rejected · ", error.message())),
    };
    let (previous, same) = previous_binding(settings, &requested);
    if same && active {
        return ShortcutRequest::Status(owned("Shortcut is already active"));
    }
    ShortcutRequest::Register(
        PendingRegistration { requested, previous: Some(previous), persist: true, rollback: false },
    )
}

/// The reset button: go back to Print Screen.
pub fn reset_requested(pending: bool, active: bool, settings: &AppSettings) -> (r: ShortcutRequest)
    ensures
        pending ==> r is Ignored,
        !pending ==> {
            let (previous, same) = fallback_for(*settings, default_binding_view());
            if same && active {
                r matches ShortcutRequest::Status(s) && s@ == "PrtSc is already the active shortcut"@
            } else {
                r matches ShortcutRequest::Register(p) && registers_and_saves(
                    p,
                    default_binding_view(),
                    previous,
                )
            }
        },
{
    if pending {
        return ShortcutRequest::Ignored;
    }
    let requested = HotkeyBinding::capture_default();
    let (previous, same) = previous_binding(settings, &requested);
    if same && active {
        return ShortcutRequest::Status(owned("PrtSc is already the active shortcut"));
    }
    ShortcutRequest::Register(
        PendingRegistration { requested, previous: Some(previous), persist: true, rollback: false },
    )
}

/// The fall-back registration of `previous`: not saved, marked as a
/// fall-back, with nothing behind it.
pub open spec fn restores(p: PendingRegistration, previous: BindingView) -> bool {
    &&& p.requested@ == previous
    &&& p.previous is None
    &&& !p.persist
    &&& p.rollback
}

/// The label a registered shortcut goes by: the description the portal
/// gave, when it gave one, else the binding's label.
pub open spec fn effective_text(b: BindingView, platform: Platform, portal: Option<Seq<char>>) -> Seq<char> {
    match portal {
        Some(d) => if d.len() > 0 {
            d
        } else {
            binding_label(b, platform)
        },
        None => binding_label(b, platform),
    }
}

/// The status of an active shortcut.
pub open spec fn active_status(rollback: bool, portal_managed: bool, configured: Seq<char>, effective: Seq<char>) -> Seq<char> {
    if rollback {
        "Previous shortcut restored · "@ + effective
    } else if portal_managed && effective != configured {
        "Shortcut active · requested "@ + configured + " · system assigned "@ + effective
    } else {
        "Screenshot shortcut active · "@ + effective
    }
}

fn restore(previous: &HotkeyBinding) -> (r: PendingRegistration)
    ensures
        restores(r, previous@),
{
    PendingRegistration { requested: previous.clone(), previous: None, persist: false, rollback: true }
}

/// What a finished registration of `registration` leads to.  `result` is
/// the description the shortcuts portal gave the registered shortcut
/// (`None` outside the portal), or the error; `saved` is the outcome of
/// saving it, `None` when it was not saved.
pub fn registration_finished(
    registration: &PendingRegistration,
    result: Result<Option<String>, String>,
    saved: Option<Result<(), String>>,
    platform: Platform,
    portal_managed: bool,
) -> (r: RegistrationStep)
    ensures
        match result {
            Err(error) => match registration.previous {
                Some(previous) => r matches RegistrationStep::Restore { status, next } && status@
                    == "Shortcut "@ + binding_label(registration.requested@, platform) + " failed · "@
                    + error@ + " · restoring "@ + binding_label(previous@, platform) && restores(
                    next,
                    previous@,
                ),
                None => r matches RegistrationStep::Failed { name, status } && name matches Some(n)
                    && n@ == binding_label(registration.requested@, platform) + " unavailable"@
                    && status@ == "Screenshot shortcut registration failed · "@ + error@
                    + " · click retry to try again"@,
            },
            Ok(description) => match (if registration.persist {
                match saved {
                    Some(Err(e)) => Some(e),
                    _ => None,
                }
            } else {
                None
            }) {
                Some(error) => match registration.previous {
                    Some(previous) => r matches RegistrationStep::Restore { status, next } && status@
                        == "Could not save shortcut · "@ + error@ + " · restoring "@ + binding_label(
                        previous@,
                        platform,
                    ) && restores(next, previous@),
                    None => r matches RegistrationStep::Failed { name, status } && name is None
                        && status@ == "Could not save shortcut · "@ + error@,
                },
                None => {
                let configured = binding_label(registration.requested@, platform);
                let effective = effective_text(
                    registration.requested@,
                    platform,
                    match description {
                        Some(d) => Some(d@),
                        None => None,
                    },
                );
                r matches RegistrationStep::Active { configured: c, effective: e, status } && c@
                    == configured && e@ == effective && status@ == active_status(
                    registration.rollback,
                    portal_managed,
                    configured,
                    effective,
                )
                },
            },
        },
{
    let requested = &registration.requested;
    match result {
        Err(error) => match &registration.previous {
            Some(previous) => {
                let mut status = concat2("Shortcut ", requested.display_label(platform).as_str());
                status.append(" failed · ");
                status.append(error.as_str());
                status.append(" · restoring ");
                status.append(previous.display_label(platform).as_str());
                RegistrationStep::Restore { status, next: restore(previous) }
            },
            None => {
                let mut name = requested.display_label(platform);
                name.append(" unavailable");
                let mut status = concat2(
                    "Screenshot shortcut registration failed · ",
                    error.as_str(),
                );
                status.append(" · click retry to try again");
                RegistrationStep::Failed { name: Some(name), status }
            },
        },
        Ok(description) => {
            if registration.persist {
                match saved {
                    Some(Err(error)) => {
                        let mut status = concat2("Could not save shortcut · ", error.as_str());
                        return match &registration.previous {
                            Some(previous) => {
                                status.append(" · restoring ");
                                status.append(previous.display_label(platform).as_str());
                                RegistrationStep::Restore { status, next: restore(previous) }
                            },
                            None => RegistrationStep::Failed { name: None, status },
                        };
                    },
                    _ => {},
                }
            }
            let configured = requested.display_label(platform);
            let effective = match &description {
                Some(d) => requested.effective_label(platform, Some(d.as_str())),
                None => requested.effective_label(platform, None),
            };
            let status = if registration.rollback {
                concat2("Previous shortcut restored · ", effective.as_str())
            } else if portal_managed && !str_eq(effective.as_str(), configured.as_str()) {
                let mut s = concat2("Shortcut active · requested ", configured.as_str());
                s.append(" · system assigned ");
                s.append(effective.as_str());
                s
            } else {
                concat2("Screenshot shortcut active · ", effective.as_str())
            };
            RegistrationStep::Active { configured, effective, status }
        },
    }
}

} // verus!
