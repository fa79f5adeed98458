//! When a newer version is spoken of: asked about at launch or where it is
//! asked for, and not again once it has been declined.
use vstd::prelude::*;

use crate::overlay::{question, update_overlay};
use crate::text::{cat, cat3, opt_text, same};
use crate::types::{Bench, BenchModel, BenchOf, ConfirmKindOf, OverlayModel};

verus! {

/// What is known of newer versions: whether this client updates itself at all,
/// the version on offer, the one that was declined, whether the check that is
/// made at launch has ended, whether the check that is under way was asked for, and the version
/// the settings page names.
#[verifier::ext_equal]
#[derive(Clone, Debug, PartialEq, Eq)]
pub struct UpdatesOf<S> {
    pub allowed: bool,
    pub offer: Option<S>,
    pub declined: Option<S>,
    pub launched: bool,
    pub forced: bool,
    pub available: Option<S>,
}

pub type Updates = UpdatesOf<String>;

pub type UpdatesModel = UpdatesOf<Seq<char>>;

impl View for UpdatesOf<String> {
    type V = UpdatesOf<Seq<char>>;

    open spec fn view(&self) -> UpdatesOf<Seq<char>> {
        UpdatesOf {
            allowed: self.allowed,
            offer: opt_text(self.offer),
            declined: opt_text(self.declined),
            launched: self.launched,
            forced: self.forced,
            available: opt_text(self.available),
        }
    }
}

/// The question about a version.
pub open spec fn update_question(version: Seq<char>, current: Seq<char>) -> OverlayModel {
    question(
        "UPDATE"@,
        "butai "@ + version + " is available — you have "@ + current,
        ConfirmKindOf::Update { version },
    )
}

/// A view that asks about a version.
pub open spec fn update_asked(v: BenchModel, version: Seq<char>, current: Seq<char>) -> BenchModel {
    BenchOf {
        overlay: Some(update_question(version, current)),
        flash: Some("no won't ask again for "@ + version + " — esc asks next launch"@),
        ..v
    }
}

fn ask_update(view: &mut Bench, version: &str, current: &str)
    ensures
        final(view)@ == update_asked(old(view)@, version@, current@),
{
    view.overlay = Some(update_overlay(version, current));
    view.flash = Some(cat3("no won't ask again for ", version, " — esc asks next launch"));
}

/// Takes the version on offer, to update to it.
pub fn take_update(u: &mut Updates) -> (r: Option<String>)
    ensures
        opt_text(r) == old(u)@.offer,
        final(u)@ == (UpdatesOf { offer: None, ..old(u)@ }),
{
    u.offer.take()
}

/// Declines a version for good. `saved` says whether that could be written
/// down; it holds for this run either way.
pub fn decline_update(version: String, saved: Result<(), String>, u: &mut Updates, view: &mut Bench)
    ensures
        final(u)@ == (UpdatesOf { declined: Some(version@), offer: None, ..old(u)@ }),
        final(view)@ == (BenchOf {
            flash: Some(
                match saved {
                    Ok(_) => "butai "@ + version@
                        + " declined — `butai update` to change your mind"@,
                    Err(e) => "update: "@ + e@,
                },
            ),
            ..old(view)@
        }),
{
    view.flash = Some(
        match saved {
            Ok(_) => cat3(
                "butai ",
                version.as_str(),
                " declined — `butai update` to change your mind",
            ),
            Err(e) => cat("update: ", e.as_str()),
        },
    );
    u.declined = Some(version);
    u.offer = None;
}

/// What asking for an update does: a version on offer is asked about, and
/// otherwise one is looked for, where this client updates itself at all.
pub open spec fn update_wanted(u: UpdatesModel, v: BenchModel, current: Seq<char>) -> (
    UpdatesModel,
    BenchModel,
    bool,
) {
    match u.offer {
        Some(version) => (u, update_asked(v, version, current), false),
        None => if u.allowed {
            (
                UpdatesOf { forced: true, ..u },
                BenchOf { flash: Some("checking for updates…"@), ..v },
                true,
            )
        } else {
            (u, BenchOf { flash: Some("standalone does not update itself"@), ..v }, false)
        },
    }
}

/// Asks for an update, and says whether a check is to be started.
pub fn check_update(u: &mut Updates, view: &mut Bench, current: &str) -> (check: bool)
    ensures
        (final(u)@, final(view)@, check) == update_wanted(old(u)@, old(view)@, current@),
{
    match &u.offer {
        Some(version) => {
            ask_update(view, version.as_str(), current);
            false
        },
        None => {
            if u.allowed {
                view.flash = Some("checking for updates…".to_owned());
                u.forced = true;
                true
            } else {
                view.flash = Some("standalone does not update itself".to_owned());
                false
            }
        },
    }
}

/// What the end of a check does: whether anything is said. A version that was
/// declined is passed over, unless the check was asked for; one is asked about
/// of its own accord only at launch, never over a box that is open, and
/// otherwise only mentioned. That there is none, or that the check failed, is
/// said only where it was asked for.
pub open spec fn check_ended(
    found: Result<Option<Seq<char>>, Seq<char>>,
    u: UpdatesModel,
    v: BenchModel,
    current: Seq<char>,
) -> (UpdatesModel, BenchModel, bool) {
    let forced = u.forced;
    let launch = !u.launched;
    let u = UpdatesOf { forced: false, launched: true, ..u };
    match found {
        Ok(Some(version)) => if !forced && u.declined == Some(version) {
            (u, v, false)
        } else {
            let ask = v.overlay is None && (forced || launch);
            (
                UpdatesOf { available: Some(version), offer: Some(version), ..u },
                if ask {
                    update_asked(v, version, current)
                } else {
                    BenchOf {
                        flash: Some("butai "@ + version + " is available — :update"@),
                        ..v
                    }
                },
                true,
            )
        },
        Ok(None) => if forced {
            (u, BenchOf { flash: Some("butai "@ + current + " is the latest"@), ..v }, true)
        } else {
            (u, v, false)
        },
        Err(e) => if forced {
            (u, BenchOf { flash: Some("update: "@ + e), ..v }, true)
        } else {
            (u, v, false)
        },
    }
}

/// Takes in the end of a check, and says whether anything is to be drawn.
pub fn update_found(
    found: Result<Option<String>, String>,
    u: &mut Updates,
    view: &mut Bench,
    current: &str,
) -> (dirty: bool)
    ensures
        (final(u)@, final(view)@, dirty) == check_ended(
            match found {
                Ok(o) => Ok(opt_text(o)),
                Err(e) => Err(e@),
            },
            old(u)@,
            old(view)@,
            current@,
        ),
{
    let forced = u.forced;
    let launch = !u.launched;
    u.forced = false;
    u.launched = true;
    match found {
        Ok(Some(version)) => {
            let declined = match &u.declined {
                Some(d) => !forced && same(d.as_str(), version.as_str()),
                None => false,
            };
            if declined {
                return false;
            }
            if view.overlay.is_none() && (forced || launch) {
                ask_update(view, version.as_str(), current);
            } else {
                view.flash = Some(cat3("butai ", version.as_str(), " is available — :update"));
            }
            u.available = Some(version.clone());
            u.offer = Some(version);
            true
        },
        Ok(None) => {
            if forced {
                view.flash = Some(cat3("butai ", current, " is the latest"));
            }
            forced
        },
        Err(e) => {
            if forced {
                view.flash = Some(cat("update: ", e.as_str()));
            }
            forced
        },
    }
}

/// A version that was declined is not spoken of again by itself, and is asked
/// about where it is asked for.
pub proof fn a_declined_version_waits_to_be_asked_for(
    version: Seq<char>,
    u: UpdatesModel,
    v: BenchModel,
    current: Seq<char>,
)
    requires
        u.declined == Some(version),
    ensures
        !u.forced ==> check_ended(Ok(Some(version)), u, v, current) == (
            UpdatesOf { launched: true, ..u },
            v,
            false,
        ),
        u.forced && v.overlay is None ==> check_ended(Ok(Some(version)), u, v, current).1.overlay
            == Some(update_question(version, current)),
{
}

/// A check that was not asked for puts up a question only at launch: one that
/// ends later leaves the keyboard to whoever has it, and mentions what it found.
pub proof fn a_later_check_takes_no_keyboard(
    found: Result<Option<Seq<char>>, Seq<char>>,
    earlier: Result<Option<Seq<char>>, Seq<char>>,
    u: UpdatesModel,
    v: BenchModel,
    before: BenchModel,
    current: Seq<char>,
)
    requires
        !u.forced,
    ensures
        ({
            let (u, _, _) = check_ended(earlier, u, before, current);
            check_ended(found, u, v, current).1.overlay == v.overlay
        }),
{
}

/// A check never takes the place of a box that is open.
pub proof fn a_check_leaves_an_open_box_alone(
    found: Result<Option<Seq<char>>, Seq<char>>,
    u: UpdatesModel,
    v: BenchModel,
    current: Seq<char>,
)
    requires
        v.overlay is Some,
    ensures
        check_ended(found, u, v, current).1.overlay == v.overlay,
{
}

/// Asking for an update asks about the version on offer, by both versions; with
/// none on offer one is looked for, where this client updates itself, and
/// otherwise it is said that it does not.
pub proof fn an_update_is_asked_about_or_looked_for(
    u: UpdatesModel,
    v: BenchModel,
    current: Seq<char>,
    version: Seq<char>,
)
    ensures
        u.offer == Some(version) ==> update_wanted(u, v, current) == (
            u,
            BenchOf {
                overlay: Some(
                    OverlayModel::Confirm(
                        crate::types::ConfirmOverlayOf {
                            title: "UPDATE"@,
                            header: "butai "@ + version + " is available — you have "@ + current,
                            yes: false,
                            kind: ConfirmKindOf::Update { version },
                        },
                    ),
                ),
                flash: Some("no won't ask again for "@ + version + " — esc asks next launch"@),
                ..v
            },
            false,
        ),
        u.offer is None && u.allowed ==> update_wanted(u, v, current) == (
            UpdatesOf { forced: true, ..u },
            BenchOf { flash: Some("checking for updates…"@), ..v },
            true,
        ),
        u.offer is None && !u.allowed ==> update_wanted(u, v, current) == (
            u,
            BenchOf { flash: Some("standalone does not update itself"@), ..v },
            false,
        ),
{
}

/// A version that is found and was not declined is on offer from then on. It
/// is asked about where it was asked for or at launch, with no box open, and
/// is otherwise mentioned.
pub proof fn a_found_version_is_offered(
    u: UpdatesModel,
    v: BenchModel,
    current: Seq<char>,
    version: Seq<char>,
)
    requires
        u.declined != Some(version),
    ensures
        ({
            let (after, view, dirty) = check_ended(Ok(Some(version)), u, v, current);
            &&& dirty
            &&& after.offer == Some(version)
            &&& after.available == Some(version)
            &&& after.launched && !after.forced
            &&& after.declined == u.declined && after.allowed == u.allowed
            &&& v.overlay is None && (u.forced || !u.launched) ==> (view.overlay matches Some(
                crate::types::OverlayOf::Confirm(c),
            ) && c.kind == (ConfirmKindOf::Update { version }))
            &&& v.overlay is Some || !u.forced && u.launched ==> view == (BenchOf {
                flash: Some("butai "@ + version + " is available — :update"@),
                ..v
            })
        }),
{
}

/// That there is no newer version, or that the check failed, is said where it
/// was asked for and only there.
pub proof fn a_check_that_was_not_asked_for_is_quiet(
    u: UpdatesModel,
    v: BenchModel,
    current: Seq<char>,
    why: Seq<char>,
)
    ensures
        u.forced ==> check_ended(Ok(None), u, v, current) == (
            UpdatesOf { forced: false, launched: true, ..u },
            BenchOf { flash: Some("butai "@ + current + " is the latest"@), ..v },
            true,
        ),
        u.forced ==> check_ended(Err(why), u, v, current) == (
            UpdatesOf { forced: false, launched: true, ..u },
            BenchOf { flash: Some("update: "@ + why), ..v },
            true,
        ),
        !u.forced ==> check_ended(Ok(None), u, v, current) == (
            UpdatesOf { launched: true, ..u },
            v,
            false,
        ),
        !u.forced ==> check_ended(Err(why), u, v, current) == (
            UpdatesOf { launched: true, ..u },
            v,
            false,
        ),
{
}

} // verus!
