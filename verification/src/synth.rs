//! The dispatch synthesizer: extracts the payload binding of every
//! question- or tell-classified method and folds the resulting
//! fragments into the three dispatch groups, aborting the whole pass on
//! the first malformed handler.

use vstd::prelude::*;

use crate::ast::DispatchGroups;
use crate::ast::Fragment;
use crate::ast::CallTarget;
use crate::ast::GenError;
use crate::ast::GeneratedImpl;
use crate::ast::ImplBlock;
use crate::ast::Member;
use crate::ast::MessageKind;
use crate::ast::Method;
use crate::ast::Param;
use crate::ast::ReceiverShape;
use crate::scanner::get_function_type;
use crate::scanner::get_message_handler_type;
use crate::scanner::spec_classify;
use crate::scanner::spec_shape;

verus! {

/// Payload binding of an instance handler (shared or mutable
/// receiver): the handler must take exactly 2 or 3 parameters, and the
/// second one, the first after the receiver, carries the payload type.
pub open spec fn spec_payload_instance(m: Method) -> Result<String, GenError> {
    if m.params@.len() != 2 && m.params@.len() != 3 {
        Err(GenError::InstanceArity { method: m.name, count: m.params@.len() as usize })
    } else {
        match m.params@[1] {
            Param::Typed { ty } => Ok(ty),
            Param::Receiver { .. } => Err(GenError::UntypedPayload { method: m.name }),
        }
    }
}

/// Payload binding of a static handler (no receiver): the handler must
/// take exactly 1 or 2 parameters, and the first one carries the
/// payload type.
pub open spec fn spec_payload_static(m: Method) -> Result<String, GenError> {
    if m.params@.len() != 1 && m.params@.len() != 2 {
        Err(GenError::StaticArity { method: m.name, count: m.params@.len() as usize })
    } else {
        match m.params@[0] {
            Param::Typed { ty } => Ok(ty),
            Param::Receiver { .. } => Err(GenError::UntypedPayload { method: m.name }),
        }
    }
}

/// Payload binding by receiver shape, paired with the method name; a
/// by-value receiver is rejected before this point, so that shape is
/// left unconstrained.
pub open spec fn spec_message_info(fun_type: ReceiverShape, m: Method) -> Result<
    (String, String),
    GenError,
> {
    match fun_type {
        ReceiverShape::SharedRef | ReceiverShape::MutableRef => match spec_payload_instance(m) {
            Ok(ty) => Ok((ty, m.name)),
            Err(e) => Err(e),
        },
        ReceiverShape::Static => match spec_payload_static(m) {
            Ok(ty) => Ok((ty, m.name)),
            Err(e) => Err(e),
        },
        ReceiverShape::ByValue => arbitrary(),
    }
}

/// The registration fragment of one method classified `kind`: its
/// payload binding by receiver shape, called on the receiver for
/// instance handlers and qualified by the target type for static ones;
/// a by-value receiver is a fatal error naming the method.
pub open spec fn spec_fragment(kind: MessageKind, m: Method) -> Result<Fragment, GenError> {
    match spec_shape(m.params@) {
        ReceiverShape::ByValue => Err(GenError::ByValueReceiver { kind, method: m.name }),
        ReceiverShape::SharedRef | ReceiverShape::MutableRef => match spec_payload_instance(m) {
            Ok(ty) => Ok(Fragment { payload_ty: ty, method: m.name, target: CallTarget::Instance }),
            Err(e) => Err(e),
        },
        ReceiverShape::Static => match spec_payload_static(m) {
            Ok(ty) => Ok(
                Fragment { payload_ty: ty, method: m.name, target: CallTarget::Qualified },
            ),
            Err(e) => Err(e),
        },
    }
}

/// The question and tell groups of a member list: one fragment per
/// classified method, in declaration order; the first fatal fragment,
/// in declaration order, fails the whole pass. Broadcast-classified
/// methods are accepted but routed nowhere.
pub open spec fn spec_groups(members: Seq<Member>) -> Result<
    (Seq<Fragment>, Seq<Fragment>),
    GenError,
>
    decreases members.len(),
{
    if members.len() == 0 {
        Ok((Seq::empty(), Seq::empty()))
    } else {
        let rest = spec_groups(members.drop_first());
        match members[0] {
            Member::Method(m) => match spec_classify(m.attrs@) {
                MessageKind::Question => match spec_fragment(MessageKind::Question, m) {
                    Ok(f) => match rest {
                        Ok(p) => Ok((seq![f] + p.0, p.1)),
                        Err(e) => Err(e),
                    },
                    Err(e) => Err(e),
                },
                MessageKind::Tell => match spec_fragment(MessageKind::Tell, m) {
                    Ok(f) => match rest {
                        Ok(p) => Ok((p.0, seq![f] + p.1)),
                        Err(e) => Err(e),
                    },
                    Err(e) => Err(e),
                },
                MessageKind::Broadcast => rest,
                MessageKind::Unclassified => rest,
            },
            Member::Other => rest,
        }
    }
}

/// The groups of `rest`, appended after fragments already accumulated.
pub open spec fn spec_groups_app(
    q0: Seq<Fragment>,
    t0: Seq<Fragment>,
    rest: Seq<Member>,
) -> Result<(Seq<Fragment>, Seq<Fragment>), GenError> {
    match spec_groups(rest) {
        Ok(p) => Ok((q0 + p.0, t0 + p.1)),
        Err(e) => Err(e),
    }
}

/// Payload binding of a method whose receiver shape is already known
/// not to be by-value; shared and mutable receivers extract alike.
pub fn parse_message_info(fun_type: ReceiverShape, m: &Method) -> (r: Result<
    (String, String),
    GenError,
>)
    requires
        !(fun_type is ByValue),
    ensures
        r == spec_message_info(fun_type, *m),
{
    match fun_type {
        ReceiverShape::SharedRef | ReceiverShape::MutableRef => {
            let input_len = m.params.len();
            if input_len != 2 && input_len != 3 {
                return Err(GenError::InstanceArity { method: m.name.clone(), count: input_len });
            }
            match &m.params[1] {
                Param::Typed { ty } => Ok((ty.clone(), m.name.clone())),
                Param::Receiver { .. } => Err(
                    GenError::UntypedPayload { method: m.name.clone() },
                ),
            }
        },
        ReceiverShape::Static => {
            let input_len = m.params.len();
            if input_len != 1 && input_len != 2 {
                return Err(GenError::StaticArity { method: m.name.clone(), count: input_len });
            }
            match &m.params[0] {
                Param::Typed { ty } => Ok((ty.clone(), m.name.clone())),
                Param::Receiver { .. } => Err(
                    GenError::UntypedPayload { method: m.name.clone() },
                ),
            }
        },
        ReceiverShape::ByValue => unreached(),
    }
}

/// The question fragment of one method: rejects a by-value receiver,
/// then binds the payload type to a receiver-bound or type-qualified
/// call.
pub fn gen_one_question(m: &Method) -> (r: Result<Fragment, GenError>)
    ensures
        r == spec_fragment(MessageKind::Question, *m),
{
    match get_function_type(m) {
        ReceiverShape::ByValue => Err(
            GenError::ByValueReceiver { kind: MessageKind::Question, method: m.name.clone() },
        ),
        ReceiverShape::SharedRef | ReceiverShape::MutableRef => {
            match parse_message_info(ReceiverShape::SharedRef, m) {
                Ok(info) => Ok(
                    Fragment { payload_ty: info.0, method: info.1, target: CallTarget::Instance },
                ),
                Err(e) => Err(e),
            }
        },
        ReceiverShape::Static => {
            match parse_message_info(ReceiverShape::Static, m) {
                Ok(info) => Ok(
                    Fragment { payload_ty: info.0, method: info.1, target: CallTarget::Qualified },
                ),
                Err(e) => Err(e),
            }
        },
    }
}

/// The tell fragment of one method; only the kind named in a by-value
/// rejection differs from the question case.
pub fn gen_one_tell(m: &Method) -> (r: Result<Fragment, GenError>)
    ensures
        r == spec_fragment(MessageKind::Tell, *m),
{
    match get_function_type(m) {
        ReceiverShape::ByValue => Err(
            GenError::ByValueReceiver { kind: MessageKind::Tell, method: m.name.clone() },
        ),
        ReceiverShape::SharedRef | ReceiverShape::MutableRef => {
            match parse_message_info(ReceiverShape::SharedRef, m) {
                Ok(info) => Ok(
                    Fragment { payload_ty: info.0, method: info.1, target: CallTarget::Instance },
                ),
                Err(e) => Err(e),
            }
        },
        ReceiverShape::Static => {
            match parse_message_info(ReceiverShape::Static, m) {
                Ok(info) => Ok(
                    Fragment { payload_ty: info.0, method: info.1, target: CallTarget::Qualified },
                ),
                Err(e) => Err(e),
            }
        },
    }
}

/// The three dispatch groups of a member list, in declaration order;
/// the first malformed handler aborts the pass with its error and no
/// partial output.
pub fn gen_handle_block(members: &Vec<Member>) -> (r: Result<DispatchGroups, GenError>)
    ensures
        match r {
            Ok(g) => spec_groups(members@) == Ok::<_, GenError>((g.questions@, g.tells@))
                && g.broadcasts@ == Seq::<Fragment>::empty(),
            Err(e) => spec_groups(members@) == Err::<(Seq<Fragment>, Seq<Fragment>), _>(e),
        },
{
    let mut questions: Vec<Fragment> = Vec::new();
    let mut tells: Vec<Fragment> = Vec::new();
    let n = members.len();
    let mut i: usize = 0;
    proof {
        assert(members@.skip(0) =~= members@);
        assert(questions@ + spec_groups(members@)->Ok_0.0 =~= spec_groups(members@)->Ok_0.0);
        assert(tells@ + spec_groups(members@)->Ok_0.1 =~= spec_groups(members@)->Ok_0.1);
    }
    while i < n
        invariant
            i <= n,
            n == members@.len(),
            spec_groups(members@) == spec_groups_app(questions@, tells@, members@.skip(i as int)),
        decreases n - i,
    {
        proof {
            assert(members@.skip(i as int)[0] == members@[i as int]);
            assert(members@.skip(i as int).drop_first() =~= members@.skip(i as int + 1));
        }
        match &members[i] {
            Member::Method(m) => {
                let kind = get_message_handler_type(m);
                match kind {
                    MessageKind::Question => {
                        match gen_one_question(m) {
                            Ok(f) => {
                                proof {
                                    let rest = spec_groups(members@.skip(i as int + 1));
                                    if rest is Ok {
                                        assert(questions@ + (seq![f] + rest->Ok_0.0)
                                            =~= questions@.push(f) + rest->Ok_0.0);
                                    }
                                }
                                questions.push(f);
                            },
                            Err(e) => {
                                return Err(e);
                            },
                        }
                    },
                    MessageKind::Tell => {
                        match gen_one_tell(m) {
                            Ok(f) => {
                                proof {
                                    let rest = spec_groups(members@.skip(i as int + 1));
                                    if rest is Ok {
                                        assert(tells@ + (seq![f] + rest->Ok_0.1)
                                            =~= tells@.push(f) + rest->Ok_0.1);
                                    }
                                }
                                tells.push(f);
                            },
                            Err(e) => {
                                return Err(e);
                            },
                        }
                    },
                    MessageKind::Broadcast => {},
                    MessageKind::Unclassified => {},
                }
            },
            Member::Other => {},
        }
        i = i + 1;
    }
    proof {
        assert(members@.skip(i as int).len() == 0);
        assert(questions@ + Seq::<Fragment>::empty() =~= questions@);
        assert(tells@ + Seq::<Fragment>::empty() =~= tells@);
    }
    Ok(DispatchGroups { questions, tells, broadcasts: Vec::new() })
}

/// The generated implementation for one block: its target type and the
/// three groups; fails exactly when fragment synthesis fails.
pub fn gen_impl(item: &ImplBlock) -> (r: Result<GeneratedImpl, GenError>)
    ensures
        match r {
            Ok(g) => g.self_ty == item.self_ty && spec_groups(item.members@) == Ok::<
                _,
                GenError,
            >((g.questions@, g.tells@)) && g.broadcasts@ == Seq::<Fragment>::empty(),
            Err(e) => spec_groups(item.members@) == Err::<(Seq<Fragment>, Seq<Fragment>), _>(e),
        },
{
    match gen_handle_block(&item.members) {
        Ok(g) => Ok(
            GeneratedImpl {
                self_ty: item.self_ty.clone(),
                questions: g.questions,
                tells: g.tells,
                broadcasts: g.broadcasts,
            },
        ),
        Err(e) => Err(e),
    }
}

} // verus!
