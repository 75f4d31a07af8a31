//! The structured representation a generation pass works on: the
//! implementation block handed in, and the fragments, groups,
//! diagnostics and errors handed back.

use vstd::prelude::*;

verus! {

/// One marker attribute on a method, as the ordered names of its path
/// segments; the last segment is the marker's name and decides the
/// dispatch group.
#[derive(Debug, Clone, PartialEq, Eq)]
pub struct Attr {
    pub segments: Vec<String>,
}

/// One parameter of a method: either the receiver position, with its
/// reference and mutability flags, or an ordinary parameter whose type
/// is carried as its rendered reference text.
#[derive(Debug, Clone, PartialEq, Eq)]
pub enum Param {
    Receiver { by_ref: bool, mutable: bool },
    Typed { ty: String },
}

/// A method's declared return type, as far as the diagnostic renderer
/// understands it: omitted, a verbatim rendering, or a form the
/// renderer does not recognize.
#[derive(Debug, Clone, PartialEq, Eq)]
pub enum ReturnDesc {
    Omitted,
    Verbatim(String),
    Unrecognized,
}

/// A method of an implementation block: its name, its marker
/// attributes in declaration order, its parameters in declaration
/// order, and its return-type descriptor.
#[derive(Debug, Clone, PartialEq, Eq)]
pub struct Method {
    pub name: String,
    pub attrs: Vec<Attr>,
    pub params: Vec<Param>,
    pub ret: ReturnDesc,
}

/// A member of an implementation block: a method, or some other item
/// that plays no part in dispatch.
#[derive(Debug, Clone, PartialEq, Eq)]
pub enum Member {
    Method(Method),
    Other,
}

/// An implementation block: the target type it is written for and its
/// members in declaration order.
#[derive(Debug, Clone, PartialEq, Eq)]
pub struct ImplBlock {
    pub self_ty: String,
    pub members: Vec<Member>,
}

/// The dispatch group a method is classified into by its first
/// recognized marker; an `Unclassified` method takes no part in
/// dispatch.
#[derive(Debug, Clone, Copy, PartialEq, Eq, Structural)]
pub enum MessageKind {
    Unclassified,
    Question,
    Tell,
    Broadcast,
}

/// How a handler takes the owning instance: by shared reference, by
/// mutable reference, by value, or not at all.
#[derive(Debug, Clone, Copy, PartialEq, Eq, Structural)]
pub enum ReceiverShape {
    SharedRef,
    MutableRef,
    ByValue,
    Static,
}

/// How a fragment reaches its handler: a call on the receiver, or a
/// call qualified by the target type (for static handlers).
#[derive(Debug, Clone, Copy, PartialEq, Eq, Structural)]
pub enum CallTarget {
    Instance,
    Qualified,
}

/// One generated registration: an incoming message of type
/// `payload_ty` is routed to the method `method`, reached as `target`
/// says.
#[derive(Debug, Clone, PartialEq, Eq)]
pub struct Fragment {
    pub payload_ty: String,
    pub method: String,
    pub target: CallTarget,
}

/// Why a generation pass failed; every variant names the offending
/// method, and the whole pass produces no output when one arises.
#[derive(Debug, Clone, PartialEq, Eq)]
pub enum GenError {
    /// A question or tell handler takes its receiver by value: a
    /// consuming handler cannot be invoked repeatedly by a persistent
    /// dispatch table.
    ByValueReceiver { kind: MessageKind, method: String },
    /// An instance handler must take exactly 2 or 3 parameters,
    /// receiver included; `count` is what was found.
    InstanceArity { method: String, count: usize },
    /// A static handler must take exactly 1 or 2 parameters; `count`
    /// is what was found.
    StaticArity { method: String, count: usize },
    /// The parameter position that should carry the payload type is
    /// not a typed parameter.
    UntypedPayload { method: String },
}

/// The three dispatch groups, each in method declaration order.
/// Broadcast methods are recognized but not yet routed, so that group
/// is always empty.
#[derive(Debug, Clone, PartialEq, Eq)]
pub struct DispatchGroups {
    pub questions: Vec<Fragment>,
    pub tells: Vec<Fragment>,
    pub broadcasts: Vec<Fragment>,
}

/// The generated trait implementation for one target type: three
/// registration entry points, one per message kind, each folding its
/// group's fragments over a handler-registration object in declaration
/// order.
#[derive(Debug, Clone, PartialEq, Eq)]
pub struct GeneratedImpl {
    pub self_ty: String,
    pub questions: Vec<Fragment>,
    pub tells: Vec<Fragment>,
    pub broadcasts: Vec<Fragment>,
}

/// One line of the generated introspection routine: a method's
/// metadata, or a placeholder for a member that is not a method.
#[derive(Debug, Clone, PartialEq, Eq)]
pub enum DiagnosticRecord {
    MethodInfo {
        name: String,
        attr_count: usize,
        attr_name: String,
        seg_count: usize,
        ret: String,
    },
    UnknownItem,
}

/// Everything one generation pass emits besides the re-emitted block:
/// the introspection records, one per member in order, and the
/// dispatch implementation.
#[derive(Debug, Clone, PartialEq, Eq)]
pub struct Expansion {
    pub diagnostics: Vec<DiagnosticRecord>,
    pub dispatch: GeneratedImpl,
}

} // verus!
