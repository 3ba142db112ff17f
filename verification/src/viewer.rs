//! The choices the debug window makes for each parameter: which viewer draws
//! it, what its panel shows, and how the override switch acts.

use vstd::prelude::*;

use std::marker::PhantomData;

verus! {

/// `egui::Ui`, the part of the window a viewer draws in; opaque.
#[verifier::external_type_specification]
#[verifier::external_body]
pub struct ExUi(egui::Ui);

/// A viewer made from a drawing function for values of type `T`: it is given
/// the program's value, the override, and the part of the window to draw in.
pub struct AViewerFn<F, T>(pub F, pub PhantomData<T>);

impl<F: Fn(&T, &mut Option<T>, &mut egui::Ui), T> AViewerFn<F, T> {
    pub fn new(f: F) -> (viewer: Self)
        ensures
            viewer.0 == f,
    {
        AViewerFn(f, PhantomData)
    }
}

/// The viewer a parameter gets: its own where it names one, else the one
/// registered for its type, else the fallback.
pub fn choose_viewer<V>(custom: Option<V>, registered: Option<V>, fallback: V) -> (viewer: V)
    ensures
        viewer == (match custom {
            Some(c) => c,
            None => match registered {
                Some(r) => r,
                None => fallback,
            },
        }),
{
    match custom {
        Some(c) => c,
        None => match registered {
            Some(r) => r,
            None => fallback,
        },
    }
}

/// Among registered viewers, `matches[i]` tells whether viewer `i` is for the
/// type asked for; where several are, the last registered one is used.
pub fn last_registered(matches: &Vec<bool>) -> (found: Option<usize>)
    ensures
        match found {
            Some(i) => i < matches.len() && matches@[i as int] && forall|j: int|
                i < j < matches.len() ==> !matches@[j],
            None => forall|j: int| 0 <= j < matches.len() ==> !matches@[j],
        },
{
    let mut found: Option<usize> = None;
    let mut i: usize = 0;
    while i < matches.len()
        invariant
            i <= matches.len(),
            match found {
                Some(k) => k < i && matches@[k as int] && forall|j: int| k < j < i ==> !matches@[j],
                None => forall|j: int| 0 <= j < i ==> !matches@[j],
            },
        decreases matches.len() - i,
    {
        if matches[i] {
            found = Some(i);
        }
        i = i + 1;
    }
    found
}

/// What the panel of a parameter shows.
#[derive(PartialEq, Eq, Structural, Clone, Copy, Debug)]
pub enum PanelContent {
    /// The parameter's viewer draws it.
    Viewer,
    /// The parameter has a viewer that does not accept its type.
    ViewerMismatch,
    /// The program has not handed the parameter in yet.
    NotInitialized,
}

/// The panel's content, from whether the parameter has been handed in and
/// whether its viewer accepts it.
pub fn panel_content(initialized: bool, viewer_accepts: bool) -> (content: PanelContent)
    ensures
        content == (if !initialized {
            PanelContent::NotInitialized
        } else if viewer_accepts {
            PanelContent::Viewer
        } else {
            PanelContent::ViewerMismatch
        }),
{
    if !initialized {
        PanelContent::NotInitialized
    } else if viewer_accepts {
        PanelContent::Viewer
    } else {
        PanelContent::ViewerMismatch
    }
}

/// The override switch of a viewer: switched off, the override is cleared;
/// switched on, an existing override is kept and a missing one starts as a
/// copy of the program's value.
pub fn set_override_enabled<T: Clone>(ui_value: &mut Option<T>, enabled: bool, program: &T)
    ensures
        !enabled ==> *final(ui_value) is None,
        enabled && *old(ui_value) is Some ==> *final(ui_value) == *old(ui_value),
        enabled && *old(ui_value) is None ==> (*final(ui_value) is Some && cloned(
            *program,
            (*final(ui_value)).unwrap(),
        )),
{
    if enabled {
        if ui_value.is_none() {
            *ui_value = Some(program.clone());
        }
    } else {
        *ui_value = None;
    }
}

} // verus!
