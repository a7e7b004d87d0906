//! One reconciliation: decode the Night Light blob, project the appearance.
//!
//! The running agent performs a reconciliation once at startup and once for
//! each change notification delivered by the watcher; the reads and writes
//! around it live in the surrounding binary. Every reconciliation on the
//! same blob and configuration decides the same writes.

use vstd::prelude::*;

use crate::config::Args;
use crate::decoder::{decode_night_light, night_light_dark};
use crate::projector::{project, project_spec, ThemeWrites};

verus! {

/// The appearance a possibly-missing blob decodes to: absent decodes to
/// light, like any other shape that does not positively signal dark.
pub open spec fn blob_dark(blob: Option<Seq<u8>>) -> bool {
    match blob {
        Some(b) => night_light_dark(b),
        None => false,
    }
}

/// The view of an optional byte blob.
pub open spec fn opt_bytes_view(o: Option<Vec<u8>>) -> Option<Seq<u8>> {
    match o {
        Some(b) => Some(b@),
        None => None,
    }
}

/// Decide the writes of one reconciliation. `blob` is the Night Light state
/// value as read this cycle, or `None` when it could not be read or is not
/// binary.
pub fn update_theme(blob: &Option<Vec<u8>>, args: &Args) -> (w: ThemeWrites)
    requires
        args.wf(),
    ensures
        w == project_spec(blob_dark(opt_bytes_view(*blob)), args.scope_spec()),
{
    let dark = match blob {
        Some(b) => decode_night_light(b.as_slice()),
        None => false,
    };
    project(dark, args.selected_scope())
}

} // verus!
