//! One whole generation pass over an implementation block: the
//! diagnostic record of every member, plus the generated dispatch
//! implementation; a fatal condition anywhere yields the error alone,
//! with no partial output.

use vstd::prelude::*;

use crate::ast::DiagnosticRecord;
use crate::ast::Expansion;
use crate::ast::Fragment;
use crate::ast::GenError;
use crate::ast::ImplBlock;
use crate::scanner::describe;
use crate::scanner::describes;
use crate::synth::gen_impl;
use crate::synth::spec_groups;

verus! {

/// Runs the scanner and the synthesizer over one block. On success the
/// expansion holds one diagnostic record per member, in member order,
/// and the dispatch implementation for the block's target type; the
/// first malformed handler instead fails the whole pass with its error.
pub fn message_block(item: &ImplBlock) -> (r: Result<Expansion, GenError>)
    ensures
        match r {
            Ok(e) => e.diagnostics@.len() == item.members@.len() && (forall|j: int|
                0 <= j < item.members@.len() ==> describes(
                    item.members@[j],
                    #[trigger] e.diagnostics@[j],
                )) && e.dispatch.self_ty == item.self_ty && spec_groups(item.members@) == Ok::<
                _,
                GenError,
            >((e.dispatch.questions@, e.dispatch.tells@)) && e.dispatch.broadcasts@ == Seq::<
                Fragment,
            >::empty(),
            Err(err) => spec_groups(item.members@) == Err::<(Seq<Fragment>, Seq<Fragment>), _>(
                err,
            ),
        },
{
    let mut diagnostics: Vec<DiagnosticRecord> = Vec::new();
    let n = item.members.len();
    let mut i: usize = 0;
    while i < n
        invariant
            i <= n,
            n == item.members@.len(),
            diagnostics@.len() == i,
            forall|j: int|
                0 <= j < i ==> describes(item.members@[j], #[trigger] diagnostics@[j]),
        decreases n - i,
    {
        let rec = describe(&item.members[i]);
        diagnostics.push(rec);
        i = i + 1;
    }
    match gen_impl(item) {
        Ok(g) => Ok(Expansion { diagnostics, dispatch: g }),
        Err(e) => Err(e),
    }
}

} // verus!
