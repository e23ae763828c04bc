//! Decides, from the annotations of a container specification alone,
//! whether a workload is one for the bridge.

use vstd::prelude::*;
use crate::spec::{annotation_of, ContainerSpec};
use crate::text::same_text;

verus! {

/// Annotation that names the handler a workload asks for.
pub const HANDLER_ANNOTATION: &'static str = "run.oci.handler";

/// Value of [`HANDLER_ANNOTATION`] that asks for the bridge.
pub const HANDLER_WASM: &'static str = "wasm";

/// Annotation that names the variant of a module image.
pub const VARIANT_ANNOTATION: &'static str = "module.wasm.image/variant";

/// Value of [`VARIANT_ANNOTATION`] that asks for the bridge.
pub const VARIANT_COMPAT: &'static str = "compat";

/// Whether the handler annotation is present and asks for the bridge.
pub open spec fn asks_by_handler(annotations: Option<Seq<(Seq<char>, Seq<char>)>>) -> bool {
    annotation_of(annotations, HANDLER_ANNOTATION@) == Some(HANDLER_WASM@)
}

/// Whether the variant annotation is present and asks for the bridge.
pub open spec fn asks_by_variant(annotations: Option<Seq<(Seq<char>, Seq<char>)>>) -> bool {
    annotation_of(annotations, VARIANT_ANNOTATION@) == Some(VARIANT_COMPAT@)
}

/// The dispatch rule: the handler annotation is looked at first, the variant
/// annotation second, and a workload that asks by neither is declined.
pub open spec fn handles(annotations: Option<Seq<(Seq<char>, Seq<char>)>>) -> bool {
    if asks_by_handler(annotations) {
        true
    } else if asks_by_variant(annotations) {
        true
    } else {
        false
    }
}

/// Whether the bridge should run the workload that `spec` describes. The
/// decision reads the annotations only and never fails.
pub fn can_handle(spec: &ContainerSpec) -> (handled: bool)
    ensures
        handled == handles(spec@.annotations),
{
    if let Some(handler) = spec.annotation(HANDLER_ANNOTATION) {
        if same_text(handler.as_str(), HANDLER_WASM) {
            return true;
        }
    }
    if let Some(variant) = spec.annotation(VARIANT_ANNOTATION) {
        if same_text(variant.as_str(), VARIANT_COMPAT) {
            return true;
        }
    }
    false
}

/// A workload that carries neither recognised annotation is declined; so is
/// one without any annotations.
pub proof fn law_unannotated_is_declined(annotations: Option<Seq<(Seq<char>, Seq<char>)>>)
    requires
        annotation_of(annotations, HANDLER_ANNOTATION@).is_none(),
        annotation_of(annotations, VARIANT_ANNOTATION@).is_none(),
    ensures
        !handles(annotations),
        !handles(None),
{
}

/// A workload whose handler annotation is `wasm` is accepted, whatever else
/// its annotations hold.
pub proof fn law_wasm_handler_is_accepted(annotations: Option<Seq<(Seq<char>, Seq<char>)>>)
    requires
        annotation_of(annotations, HANDLER_ANNOTATION@) == Some(HANDLER_WASM@),
    ensures
        handles(annotations),
{
}

/// A workload whose variant annotation is `compat` is accepted, with or
/// without a handler annotation.
pub proof fn law_compat_variant_is_accepted(annotations: Option<Seq<(Seq<char>, Seq<char>)>>)
    requires
        annotation_of(annotations, VARIANT_ANNOTATION@) == Some(VARIANT_COMPAT@),
    ensures
        handles(annotations),
{
}

/// The decision depends on the two recognised annotations and on nothing
/// else: two annotation maps that agree on both are decided alike.
pub proof fn law_decision_reads_two_keys(
    a: Option<Seq<(Seq<char>, Seq<char>)>>,
    b: Option<Seq<(Seq<char>, Seq<char>)>>,
)
    requires
        annotation_of(a, HANDLER_ANNOTATION@) == annotation_of(b, HANDLER_ANNOTATION@),
        annotation_of(a, VARIANT_ANNOTATION@) == annotation_of(b, VARIANT_ANNOTATION@),
    ensures
        handles(a) == handles(b),
{
}

} // verus!
