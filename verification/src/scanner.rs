//! The annotation scanner: classifies each method by its marker
//! attributes, determines its receiver shape, and extracts the
//! diagnostic metadata of every member.

use vstd::prelude::*;

use crate::ast::Attr;
use crate::ast::DiagnosticRecord;
use crate::ast::Member;
use crate::ast::MessageKind;
use crate::ast::Method;
use crate::ast::Param;
use crate::ast::ReceiverShape;
use crate::ast::ReturnDesc;

verus! {

/// The dispatch group a single marker name selects; any name other
/// than the three recognized ones selects no group.
pub open spec fn marker_kind(name: Seq<char>) -> MessageKind {
    if name == "question"@ {
        MessageKind::Question
    } else if name == "tell"@ {
        MessageKind::Tell
    } else if name == "broadcast"@ {
        MessageKind::Broadcast
    } else {
        MessageKind::Unclassified
    }
}

/// Classification of a marker list: the group selected by the first
/// marker whose last path segment is a recognized name. The method is
/// `Unclassified` when the list is empty or nothing matches, and the
/// scan stops early at a marker without path segments.
pub open spec fn spec_classify(attrs: Seq<Attr>) -> MessageKind
    decreases attrs.len(),
{
    if attrs.len() == 0 {
        MessageKind::Unclassified
    } else if attrs[0].segments@.len() == 0 {
        MessageKind::Unclassified
    } else if marker_kind(attrs[0].segments@.last()@) != MessageKind::Unclassified {
        marker_kind(attrs[0].segments@.last()@)
    } else {
        spec_classify(attrs.drop_first())
    }
}

/// Receiver shape of a parameter list: the first receiver parameter,
/// scanning left to right, decides; `Static` when no parameter is a
/// receiver.
pub open spec fn spec_shape(params: Seq<Param>) -> ReceiverShape
    decreases params.len(),
{
    if params.len() == 0 {
        ReceiverShape::Static
    } else {
        match params[0] {
            Param::Receiver { by_ref, mutable } => if by_ref {
                if mutable {
                    ReceiverShape::MutableRef
                } else {
                    ReceiverShape::SharedRef
                }
            } else {
                ReceiverShape::ByValue
            },
            Param::Typed { .. } => spec_shape(params.drop_first()),
        }
    }
}

/// The diagnostic rendering of a return-type descriptor.
pub open spec fn spec_ret_text(ret: ReturnDesc) -> Seq<char> {
    match ret {
        ReturnDesc::Omitted => "default"@,
        ReturnDesc::Verbatim(s) => s@,
        ReturnDesc::Unrecognized => "unknown"@,
    }
}

/// The name of a method's first marker: the last path segment of its
/// first attribute, or the empty string when the method has no
/// attribute or the attribute has no segments.
pub open spec fn spec_first_attr_name(m: Method) -> Seq<char> {
    if m.attrs@.len() > 0 && m.attrs@[0].segments@.len() > 0 {
        m.attrs@[0].segments@.last()@
    } else {
        ""@
    }
}

/// The path-segment count of a method's first marker, or zero when the
/// method has no attribute.
pub open spec fn spec_first_attr_seg_count(m: Method) -> nat {
    if m.attrs@.len() > 0 {
        m.attrs@[0].segments@.len()
    } else {
        0
    }
}

/// What the diagnostic record of a member must hold: for a method, its
/// name, marker count, first-marker name and segment count, and the
/// rendering of its return type; for any other member, the placeholder.
pub open spec fn describes(member: Member, r: DiagnosticRecord) -> bool {
    match member {
        Member::Method(m) => r matches DiagnosticRecord::MethodInfo {
            name,
            attr_count,
            attr_name,
            seg_count,
            ret,
        } && name@ == m.name@ && attr_count == m.attrs@.len() && attr_name@
            == spec_first_attr_name(m) && seg_count == spec_first_attr_seg_count(m) && ret@
            == spec_ret_text(m.ret),
        Member::Other => r matches DiagnosticRecord::UnknownItem,
    }
}

/// Content equality of a string against a literal.
fn str_eq(a: &String, b: &str) -> (r: bool)
    ensures
        r == (a@ == b@),
{
    let bo: String = b.to_owned();
    a.eq(&bo)
}

/// Classification of a method, scanning its markers in declaration
/// order.
pub fn get_message_handler_type(m: &Method) -> (k: MessageKind)
    ensures
        k == spec_classify(m.attrs@),
{
    let n = m.attrs.len();
    let mut i: usize = 0;
    proof {
        assert(m.attrs@.skip(0) =~= m.attrs@);
    }
    while i < n
        invariant
            i <= n,
            n == m.attrs@.len(),
            spec_classify(m.attrs@) == spec_classify(m.attrs@.skip(i as int)),
        decreases n - i,
    {
        let a = &m.attrs[i];
        let seg_len = a.segments.len();
        proof {
            assert(m.attrs@.skip(i as int)[0] == m.attrs@[i as int]);
        }
        if seg_len == 0 {
            return MessageKind::Unclassified;
        }
        let last = &a.segments[seg_len - 1];
        if str_eq(last, "question") {
            return MessageKind::Question;
        } else if str_eq(last, "tell") {
            return MessageKind::Tell;
        } else if str_eq(last, "broadcast") {
            return MessageKind::Broadcast;
        }
        proof {
            assert(m.attrs@.skip(i as int).drop_first() =~= m.attrs@.skip(i as int + 1));
        }
        i = i + 1;
    }
    proof {
        assert(m.attrs@.skip(i as int).len() == 0);
    }
    MessageKind::Unclassified
}

/// Receiver shape of a method, scanning its parameters in declaration
/// order.
pub fn get_function_type(m: &Method) -> (s: ReceiverShape)
    ensures
        s == spec_shape(m.params@),
{
    let n = m.params.len();
    let mut i: usize = 0;
    proof {
        assert(m.params@.skip(0) =~= m.params@);
    }
    while i < n
        invariant
            i <= n,
            n == m.params@.len(),
            spec_shape(m.params@) == spec_shape(m.params@.skip(i as int)),
        decreases n - i,
    {
        proof {
            assert(m.params@.skip(i as int)[0] == m.params@[i as int]);
        }
        match &m.params[i] {
            Param::Receiver { by_ref, mutable } => {
                if *by_ref {
                    if *mutable {
                        return ReceiverShape::MutableRef;
                    } else {
                        return ReceiverShape::SharedRef;
                    }
                } else {
                    return ReceiverShape::ByValue;
                }
            },
            Param::Typed { .. } => {},
        }
        proof {
            assert(m.params@.skip(i as int).drop_first() =~= m.params@.skip(i as int + 1));
        }
        i = i + 1;
    }
    proof {
        assert(m.params@.skip(i as int).len() == 0);
    }
    ReceiverShape::Static
}

/// The diagnostic record of one member.
pub fn describe(member: &Member) -> (r: DiagnosticRecord)
    ensures
        describes(*member, r),
{
    match member {
        Member::Other => DiagnosticRecord::UnknownItem,
        Member::Method(m) => {
            let attr_count = m.attrs.len();
            let mut seg_count: usize = 0;
            let mut attr_name: String = "".to_owned();
            if attr_count > 0 {
                let a = &m.attrs[0];
                let sl = a.segments.len();
                seg_count = sl;
                if sl > 0 {
                    attr_name = a.segments[sl - 1].clone();
                }
            }
            let ret: String = match &m.ret {
                ReturnDesc::Omitted => "default".to_owned(),
                ReturnDesc::Verbatim(s) => s.clone(),
                ReturnDesc::Unrecognized => "unknown".to_owned(),
            };
            DiagnosticRecord::MethodInfo {
                name: m.name.clone(),
                attr_count,
                attr_name,
                seg_count,
                ret,
            }
        },
    }
}

} // verus!
