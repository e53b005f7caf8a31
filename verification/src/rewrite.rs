//! The source rewriter: from a sequential-looking procedure to a
//! suspendable-state-machine constructor.
//!
//! A surface body is ordinary sequential syntax in which two suspension
//! forms may appear anywhere: a dependency-wait on a nested operation, and
//! an emit of an interim item. [`stream`] and [`try_stream`] rewrite such a
//! procedure: every dependency-wait becomes an explicit poll loop over the
//! nested operation, every emit becomes a suspension carrying the item that
//! also rebinds the resumption token, and the declared return type becomes
//! the dual-protocol type. The lowered form ([`LoweredExpr`]) has no surface
//! suspension forms left: only the two explicit lowerings remain, except
//! inside nested suspendable-procedure literals, which are independent state
//! machines and are left untouched.

use vstd::prelude::*;

verus! {

/// A declared type, identified opaquely.
#[derive(Clone, Copy, Debug, PartialEq, Eq)]
pub enum TypeExpr {
    /// The empty/unit type, the default item and final-value type.
    Unit,
    /// Any other declared type.
    Named(u64),
}

/// A declared lifetime bound for the produced dual-protocol value.
#[derive(Clone, Copy, Debug, PartialEq, Eq)]
pub enum LifetimeSpec {
    /// No bound: the produced value borrows nothing (the default).
    Unbounded,
    /// An explicit lifetime, identified opaquely.
    Named(u64),
}

/// One token supplied as the value of a named configuration argument.
#[derive(Clone, Copy, Debug, PartialEq, Eq)]
pub enum ConfigValue {
    /// A lifetime token.
    LifetimeTok(LifetimeSpec),
    /// A type token.
    TypeTok(TypeExpr),
    /// Anything else.
    OtherTok(u64),
}

/// One attribute-style configuration argument.
#[derive(Clone, Copy, Debug, PartialEq, Eq)]
pub enum ConfigArg {
    /// `lifetime = <value>`: the declared lifetime bound.
    LifetimeArg(ConfigValue),
    /// A bare identifier, read positionally as the item type.
    ItemTypeArg(TypeExpr),
    /// Any other named argument.
    OtherArg(u64),
}

/// A rewrite-time failure: the configuration is malformed. The rewriter has
/// no runtime failures; these halt the build.
#[derive(Clone, Copy, Debug, PartialEq, Eq)]
pub enum RewriteError {
    /// The `lifetime` argument's value is not a lifetime token.
    ExpectedLifetime,
    /// A named argument other than `lifetime` was supplied.
    UnrecognizedOption,
}

/// The recognized configuration, after parsing.
#[derive(Clone, Copy, Debug, PartialEq, Eq)]
pub struct StreamConfig {
    /// The declared type of emitted items; unit when omitted.
    pub item_ty: TypeExpr,
    /// The declared lifetime bound; unbounded when omitted.
    pub lifetime: LifetimeSpec,
}

/// What a well-formed argument list configures: arguments are read left to
/// right, a later argument overriding an earlier one, and the first
/// malformed argument halts the rewrite.
pub open spec fn config_of(args: Seq<ConfigArg>) -> Result<StreamConfig, RewriteError>
    decreases args.len(),
{
    if args.len() == 0 {
        Ok(StreamConfig { item_ty: TypeExpr::Unit, lifetime: LifetimeSpec::Unbounded })
    } else {
        match config_of(args.drop_last()) {
            Err(e) => Err(e),
            Ok(c) => match args.last() {
                ConfigArg::LifetimeArg(ConfigValue::LifetimeTok(l)) => Ok(
                    StreamConfig { lifetime: l, ..c },
                ),
                ConfigArg::LifetimeArg(_) => Err(RewriteError::ExpectedLifetime),
                ConfigArg::ItemTypeArg(t) => Ok(StreamConfig { item_ty: t, ..c }),
                ConfigArg::OtherArg(_) => Err(RewriteError::UnrecognizedOption),
            },
        }
    }
}

/// Once a prefix of the argument list is malformed, the whole list is, with
/// the same error.
proof fn lemma_config_error_persists(args: Seq<ConfigArg>, n: int)
    requires
        0 <= n <= args.len(),
        config_of(args.subrange(0, n)) is Err,
    ensures
        config_of(args) == config_of(args.subrange(0, n)),
    decreases args.len() - n,
{
    if n == args.len() {
        assert(args.subrange(0, n) == args);
    } else {
        assert(args.subrange(0, n + 1).drop_last() == args.subrange(0, n));
        lemma_config_error_persists(args, n + 1);
    }
}

/// Parse an attribute-style argument list; exactly [`config_of`].
pub fn parse_config(args: &Vec<ConfigArg>) -> (r: Result<StreamConfig, RewriteError>)
    ensures
        r == config_of(args@),
{
    let mut acc = StreamConfig { item_ty: TypeExpr::Unit, lifetime: LifetimeSpec::Unbounded };
    let mut i: usize = 0;
    while i < args.len()
        invariant
            i <= args.len(),
            Ok::<StreamConfig, RewriteError>(acc) == config_of(args@.subrange(0, i as int)),
        decreases args.len() - i,
    {
        proof {
            assert(args@.subrange(0, i + 1).drop_last() == args@.subrange(0, i as int));
        }
        match args[i] {
            ConfigArg::LifetimeArg(ConfigValue::LifetimeTok(l)) => {
                acc = StreamConfig { lifetime: l, ..acc };
            },
            ConfigArg::LifetimeArg(_) => {
                proof {
                    lemma_config_error_persists(args@, i + 1);
                }
                return Err(RewriteError::ExpectedLifetime);
            },
            ConfigArg::ItemTypeArg(t) => {
                acc = StreamConfig { item_ty: t, ..acc };
            },
            ConfigArg::OtherArg(_) => {
                proof {
                    lemma_config_error_persists(args@, i + 1);
                }
                return Err(RewriteError::UnrecognizedOption);
            },
        }
        i = i + 1;
    }
    proof {
        assert(args@.subrange(0, args@.len() as int) == args@);
    }
    Ok(acc)
}

/// A surface body expression: ordinary sequential syntax, with the two
/// suspension forms appearing anywhere in it.
#[derive(Debug, PartialEq, Eq)]
pub enum SurfaceExpr {
    /// The unit expression.
    Unit,
    /// Any ordinary expression without sub-expressions, kept opaquely.
    Opaque(u64),
    /// A dependency-wait on the nested operation this expression evaluates
    /// to.
    Await(Box<SurfaceExpr>),
    /// An emit of an interim item; without a value, the unit item.
    Emit(Option<Box<SurfaceExpr>>),
    /// A nested suspendable-procedure literal: an independent state machine
    /// the rewriter must not descend into.
    AsyncBlock(Box<SurfaceExpr>),
    /// Any compound expression, as the pair of its constituents in
    /// evaluation order.
    Compound(Box<SurfaceExpr>, Box<SurfaceExpr>),
}

/// A lowered body expression. By construction no surface suspension form
/// remains: dependency-waits and emits exist only as their lowerings, and a
/// nested suspendable-procedure literal keeps its surface body untouched.
#[derive(Debug, PartialEq, Eq)]
pub enum LoweredExpr {
    /// The unit expression.
    Unit,
    /// Any ordinary expression without sub-expressions, kept opaquely.
    Opaque(u64),
    /// The lowering of a dependency-wait: evaluate the operand once, then
    /// repeatedly hold the operation in place and poll it with the current
    /// resumption token, suspending pending while it is not ready and
    /// retrying when resumed, until it is ready.
    PollLoop(Box<LoweredExpr>),
    /// The lowering of an emit: suspend with the item-ready signal carrying
    /// the value, and rebind the resumption token received when control
    /// returns.
    SuspendItem(Box<LoweredExpr>),
    /// A nested suspendable-procedure literal, untouched.
    AsyncBlock(Box<SurfaceExpr>),
    /// Any compound expression, constituents lowered in place.
    Compound(Box<LoweredExpr>, Box<LoweredExpr>),
}

/// The body-rewriting relation: `l` is the lowering of `e`. Applied
/// recursively everywhere except inside nested suspendable-procedure
/// literals; a valueless emit carries the unit item.
pub open spec fn lowers_to(e: SurfaceExpr, l: LoweredExpr) -> bool
    decreases e,
{
    match (e, l) {
        (SurfaceExpr::Unit, LoweredExpr::Unit) => true,
        (SurfaceExpr::Opaque(i), LoweredExpr::Opaque(j)) => i == j,
        (SurfaceExpr::Await(a), LoweredExpr::PollLoop(b)) => lowers_to(*a, *b),
        (SurfaceExpr::Emit(Some(a)), LoweredExpr::SuspendItem(b)) => lowers_to(*a, *b),
        (SurfaceExpr::Emit(None), LoweredExpr::SuspendItem(b)) => *b == LoweredExpr::Unit,
        (SurfaceExpr::AsyncBlock(a), LoweredExpr::AsyncBlock(b)) => *a == *b,
        (SurfaceExpr::Compound(a1, a2), LoweredExpr::Compound(b1, b2)) => lowers_to(*a1, *b1)
            && lowers_to(*a2, *b2),
        _ => false,
    }
}

/// The lowering of a body is unique: [`lowers_to`] pins it down.
pub proof fn lemma_lowering_unique(e: SurfaceExpr, l1: LoweredExpr, l2: LoweredExpr)
    requires
        lowers_to(e, l1),
        lowers_to(e, l2),
    ensures
        l1 == l2,
    decreases e,
{
    match e {
        SurfaceExpr::Unit => {},
        SurfaceExpr::Opaque(_) => {},
        SurfaceExpr::Await(a) => {
            match (l1, l2) {
                (LoweredExpr::PollLoop(b1), LoweredExpr::PollLoop(b2)) => {
                    lemma_lowering_unique(*a, *b1, *b2);
                },
                _ => {},
            }
        },
        SurfaceExpr::Emit(oa) => {
            match (oa, l1, l2) {
                (Some(a), LoweredExpr::SuspendItem(b1), LoweredExpr::SuspendItem(b2)) => {
                    lemma_lowering_unique(*a, *b1, *b2);
                },
                _ => {},
            }
        },
        SurfaceExpr::AsyncBlock(_) => {},
        SurfaceExpr::Compound(a1, a2) => {
            match (l1, l2) {
                (LoweredExpr::Compound(b1, b2), LoweredExpr::Compound(c1, c2)) => {
                    lemma_lowering_unique(*a1, *b1, *c1);
                    lemma_lowering_unique(*a2, *b2, *c2);
                },
                _ => {},
            }
        },
    }
}

/// Rewrite one surface body into its lowering.
pub fn rewrite_expr(e: SurfaceExpr) -> (r: LoweredExpr)
    ensures
        lowers_to(e, r),
    decreases e,
{
    match e {
        SurfaceExpr::Unit => LoweredExpr::Unit,
        SurfaceExpr::Opaque(i) => LoweredExpr::Opaque(i),
        SurfaceExpr::Await(a) => LoweredExpr::PollLoop(Box::new(rewrite_expr(*a))),
        SurfaceExpr::Emit(Some(a)) => LoweredExpr::SuspendItem(Box::new(rewrite_expr(*a))),
        SurfaceExpr::Emit(None) => LoweredExpr::SuspendItem(Box::new(LoweredExpr::Unit)),
        SurfaceExpr::AsyncBlock(a) => LoweredExpr::AsyncBlock(a),
        SurfaceExpr::Compound(a1, a2) => LoweredExpr::Compound(
            Box::new(rewrite_expr(*a1)),
            Box::new(rewrite_expr(*a2)),
        ),
    }
}

/// How many dependency-waits a surface body holds, nested
/// suspendable-procedure literals excluded.
pub open spec fn await_count(e: SurfaceExpr) -> nat
    decreases e,
{
    match e {
        SurfaceExpr::Unit => 0,
        SurfaceExpr::Opaque(_) => 0,
        SurfaceExpr::Await(a) => 1 + await_count(*a),
        SurfaceExpr::Emit(Some(a)) => await_count(*a),
        SurfaceExpr::Emit(None) => 0,
        SurfaceExpr::AsyncBlock(_) => 0,
        SurfaceExpr::Compound(a1, a2) => await_count(*a1) + await_count(*a2),
    }
}

/// How many emits a surface body holds, nested suspendable-procedure
/// literals excluded.
pub open spec fn emit_count(e: SurfaceExpr) -> nat
    decreases e,
{
    match e {
        SurfaceExpr::Unit => 0,
        SurfaceExpr::Opaque(_) => 0,
        SurfaceExpr::Await(a) => emit_count(*a),
        SurfaceExpr::Emit(Some(a)) => 1 + emit_count(*a),
        SurfaceExpr::Emit(None) => 1,
        SurfaceExpr::AsyncBlock(_) => 0,
        SurfaceExpr::Compound(a1, a2) => emit_count(*a1) + emit_count(*a2),
    }
}

/// How many poll loops a lowered body holds, nested literals excluded.
pub open spec fn poll_loop_count(l: LoweredExpr) -> nat
    decreases l,
{
    match l {
        LoweredExpr::Unit => 0,
        LoweredExpr::Opaque(_) => 0,
        LoweredExpr::PollLoop(b) => 1 + poll_loop_count(*b),
        LoweredExpr::SuspendItem(b) => poll_loop_count(*b),
        LoweredExpr::AsyncBlock(_) => 0,
        LoweredExpr::Compound(b1, b2) => poll_loop_count(*b1) + poll_loop_count(*b2),
    }
}

/// How many item suspensions a lowered body holds, nested literals excluded.
pub open spec fn suspend_count(l: LoweredExpr) -> nat
    decreases l,
{
    match l {
        LoweredExpr::Unit => 0,
        LoweredExpr::Opaque(_) => 0,
        LoweredExpr::PollLoop(b) => suspend_count(*b),
        LoweredExpr::SuspendItem(b) => 1 + suspend_count(*b),
        LoweredExpr::AsyncBlock(_) => 0,
        LoweredExpr::Compound(b1, b2) => suspend_count(*b1) + suspend_count(*b2),
    }
}

/// The lowering turns every dependency-wait into exactly one poll loop and
/// every emit into exactly one item suspension, and introduces no other.
pub proof fn lemma_lowering_counts(e: SurfaceExpr, l: LoweredExpr)
    requires
        lowers_to(e, l),
    ensures
        poll_loop_count(l) == await_count(e),
        suspend_count(l) == emit_count(e),
    decreases e,
{
    match e {
        SurfaceExpr::Unit => {},
        SurfaceExpr::Opaque(_) => {},
        SurfaceExpr::Await(a) => {
            match l {
                LoweredExpr::PollLoop(b) => {
                    lemma_lowering_counts(*a, *b);
                },
                _ => {},
            }
        },
        SurfaceExpr::Emit(oa) => {
            match (oa, l) {
                (Some(a), LoweredExpr::SuspendItem(b)) => {
                    lemma_lowering_counts(*a, *b);
                },
                (None, LoweredExpr::SuspendItem(b)) => {
                    assert(poll_loop_count(*b) == 0);
                    assert(suspend_count(*b) == 0);
                },
                _ => {},
            }
        },
        SurfaceExpr::AsyncBlock(_) => {},
        SurfaceExpr::Compound(a1, a2) => {
            match l {
                LoweredExpr::Compound(b1, b2) => {
                    lemma_lowering_counts(*a1, *b1);
                    lemma_lowering_counts(*a2, *b2);
                },
                _ => {},
            }
        },
    }
}

/// A surface procedure declaration, before rewriting.
#[derive(Debug, PartialEq, Eq)]
pub struct ProcDecl {
    /// The parameter list, kept opaquely; it is carried over unchanged.
    pub params: Vec<u64>,
    /// The declared final-value type; omitted means unit.
    pub output: Option<TypeExpr>,
    /// The body.
    pub body: SurfaceExpr,
}

/// The rewritten return type: a value satisfying the completion protocol
/// with the final-value type and the sequence protocol with the item type,
/// under the declared lifetime bound.
#[derive(Clone, Copy, Debug, PartialEq, Eq)]
pub enum DualReturn {
    /// Plain mode: sequence items have the declared item type.
    Plain {
        /// The completion protocol's final-value type.
        output: TypeExpr,
        /// The sequence protocol's item type.
        item: TypeExpr,
        /// The lifetime bound on the produced value.
        lifetime: LifetimeSpec,
    },
    /// Fallible mode: a sequence item is either an emitted item or the
    /// propagated failure of the final-value type.
    Fallible {
        /// The completion protocol's (fallible) final-value type.
        output: TypeExpr,
        /// The declared type of emitted items, before failure wrapping.
        item: TypeExpr,
        /// The lifetime bound on the produced value.
        lifetime: LifetimeSpec,
    },
}

/// A rewritten procedure declaration: the same parameters, the
/// dual-protocol return type, and the lowered body wrapped into a
/// state-machine constructor.
#[derive(Debug, PartialEq, Eq)]
pub struct RewrittenDecl {
    /// The parameter list, unchanged.
    pub params: Vec<u64>,
    /// The dual-protocol return type.
    pub ret: DualReturn,
    /// The lowered body.
    pub body: LoweredExpr,
}

/// The declared final-value type, with unit for an omitted one.
pub open spec fn output_type(output: Option<TypeExpr>) -> TypeExpr {
    match output {
        Some(t) => t,
        None => TypeExpr::Unit,
    }
}

/// What a correct rewrite of `input` under `attr` looks like, for either
/// mode: the configuration is well-formed, the parameters are unchanged, the
/// return type is the dual-protocol type the mode prescribes, and the body
/// is the lowering of the surface body.
pub open spec fn rewrite_post(
    attr: Seq<ConfigArg>,
    input: ProcDecl,
    fallible: bool,
    r: Result<RewrittenDecl, RewriteError>,
) -> bool {
    match (config_of(attr), r) {
        (Ok(c), Ok(d)) => {
            &&& d.params == input.params
            &&& d.ret == (if fallible {
                DualReturn::Fallible {
                    output: output_type(input.output),
                    item: c.item_ty,
                    lifetime: c.lifetime,
                }
            } else {
                DualReturn::Plain {
                    output: output_type(input.output),
                    item: c.item_ty,
                    lifetime: c.lifetime,
                }
            })
            &&& lowers_to(input.body, d.body)
        },
        (Err(e1), Err(e2)) => e1 == e2,
        _ => false,
    }
}

/// The shared rewrite: parse the configuration, rewrite the signature for
/// the requested mode, and lower the body.
fn rewrite_decl(attr: Vec<ConfigArg>, input: ProcDecl, fallible: bool) -> (r: Result<
    RewrittenDecl,
    RewriteError,
>)
    ensures
        rewrite_post(attr@, input, fallible, r),
{
    let config = match parse_config(&attr) {
        Ok(c) => c,
        Err(e) => {
            return Err(e);
        },
    };
    let output = match input.output {
        Some(t) => t,
        None => TypeExpr::Unit,
    };
    let ret = if fallible {
        DualReturn::Fallible { output, item: config.item_ty, lifetime: config.lifetime }
    } else {
        DualReturn::Plain { output, item: config.item_ty, lifetime: config.lifetime }
    };
    let body = rewrite_expr(input.body);
    Ok(RewrittenDecl { params: input.params, ret, body })
}

/// Rewrite a procedure for plain mode: the final value is returned as-is by
/// the completion protocol, and sequence items have the declared item type.
pub fn stream(attr: Vec<ConfigArg>, input: ProcDecl) -> (r: Result<RewrittenDecl, RewriteError>)
    ensures
        rewrite_post(attr@, input, false, r),
{
    rewrite_decl(attr, input, false)
}

/// Rewrite a procedure for fallible mode: the final value is result-like,
/// an early exit anywhere in the body propagates its failure as the last
/// sequence item, and each sequence item is either an emitted item or that
/// failure.
pub fn try_stream(attr: Vec<ConfigArg>, input: ProcDecl) -> (r: Result<
    RewrittenDecl,
    RewriteError,
>)
    ensures
        rewrite_post(attr@, input, true, r),
{
    rewrite_decl(attr, input, true)
}

} // verus!
