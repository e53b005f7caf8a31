use stream_future::rewrite::{
    stream, try_stream, ConfigArg, ConfigValue, DualReturn, LifetimeSpec, LoweredExpr, ProcDecl,
    RewriteError, SurfaceExpr, TypeExpr,
};

#[test]
fn defaults_when_no_configuration() {
    // No arguments: the item type defaults to unit and the lifetime bound to
    // unbounded; an omitted return type defaults to unit.
    let input = ProcDecl {
        params: vec![10, 11],
        output: None,
        body: SurfaceExpr::Opaque(1),
    };
    let d = stream(Vec::new(), input).unwrap();
    assert_eq!(d.params, [10, 11]);
    assert_eq!(
        d.ret,
        DualReturn::Plain {
            output: TypeExpr::Unit,
            item: TypeExpr::Unit,
            lifetime: LifetimeSpec::Unbounded,
        }
    );
    assert_eq!(d.body, LoweredExpr::Opaque(1));
}

#[test]
fn item_type_and_lifetime_configuration() {
    let input = ProcDecl {
        params: vec![],
        output: Some(TypeExpr::Named(7)),
        body: SurfaceExpr::Unit,
    };
    let attr = vec![
        ConfigArg::ItemTypeArg(TypeExpr::Named(3)),
        ConfigArg::LifetimeArg(ConfigValue::LifetimeTok(LifetimeSpec::Named(1))),
    ];
    let d = stream(attr, input).unwrap();
    assert_eq!(
        d.ret,
        DualReturn::Plain {
            output: TypeExpr::Named(7),
            item: TypeExpr::Named(3),
            lifetime: LifetimeSpec::Named(1),
        }
    );
}

#[test]
fn later_argument_overrides_earlier() {
    let input = ProcDecl {
        params: vec![],
        output: None,
        body: SurfaceExpr::Unit,
    };
    let attr = vec![
        ConfigArg::ItemTypeArg(TypeExpr::Named(3)),
        ConfigArg::ItemTypeArg(TypeExpr::Named(4)),
    ];
    let d = stream(attr, input).unwrap();
    assert_eq!(
        d.ret,
        DualReturn::Plain {
            output: TypeExpr::Unit,
            item: TypeExpr::Named(4),
            lifetime: LifetimeSpec::Unbounded,
        }
    );
}

#[test]
fn malformed_lifetime_value_is_rejected() {
    let input = ProcDecl {
        params: vec![],
        output: None,
        body: SurfaceExpr::Unit,
    };
    let attr = vec![ConfigArg::LifetimeArg(ConfigValue::TypeTok(TypeExpr::Named(2)))];
    assert_eq!(stream(attr, input), Err(RewriteError::ExpectedLifetime));
}

#[test]
fn unrecognized_option_is_rejected() {
    let input = ProcDecl {
        params: vec![],
        output: None,
        body: SurfaceExpr::Unit,
    };
    let attr = vec![ConfigArg::OtherArg(5)];
    assert_eq!(try_stream(attr, input), Err(RewriteError::UnrecognizedOption));
}

#[test]
fn body_lowering_rewrites_both_suspension_forms() {
    // emit(1); await(2); 3  -- the emit becomes an item suspension and the
    // dependency-wait becomes a poll loop, each in place.
    let body = SurfaceExpr::Compound(
        Box::new(SurfaceExpr::Emit(Some(Box::new(SurfaceExpr::Opaque(1))))),
        Box::new(SurfaceExpr::Compound(
            Box::new(SurfaceExpr::Await(Box::new(SurfaceExpr::Opaque(2)))),
            Box::new(SurfaceExpr::Opaque(3)),
        )),
    );
    let input = ProcDecl {
        params: vec![],
        output: None,
        body,
    };
    let d = stream(Vec::new(), input).unwrap();
    assert_eq!(
        d.body,
        LoweredExpr::Compound(
            Box::new(LoweredExpr::SuspendItem(Box::new(LoweredExpr::Opaque(1)))),
            Box::new(LoweredExpr::Compound(
                Box::new(LoweredExpr::PollLoop(Box::new(LoweredExpr::Opaque(2)))),
                Box::new(LoweredExpr::Opaque(3)),
            )),
        )
    );
}

#[test]
fn valueless_emit_carries_unit() {
    let input = ProcDecl {
        params: vec![],
        output: None,
        body: SurfaceExpr::Emit(None),
    };
    let d = stream(Vec::new(), input).unwrap();
    assert_eq!(d.body, LoweredExpr::SuspendItem(Box::new(LoweredExpr::Unit)));
}

#[test]
fn nested_literal_is_not_descended_into() {
    // A suspension form inside a nested suspendable-procedure literal
    // belongs to that independent state machine and stays untouched.
    let inner = SurfaceExpr::Await(Box::new(SurfaceExpr::Opaque(9)));
    let input = ProcDecl {
        params: vec![],
        output: None,
        body: SurfaceExpr::AsyncBlock(Box::new(inner)),
    };
    let d = stream(Vec::new(), input).unwrap();
    assert_eq!(
        d.body,
        LoweredExpr::AsyncBlock(Box::new(SurfaceExpr::Await(Box::new(SurfaceExpr::Opaque(9)))))
    );
}

#[test]
fn fallible_mode_wraps_the_item_type() {
    let input = ProcDecl {
        params: vec![2],
        output: Some(TypeExpr::Named(8)),
        body: SurfaceExpr::Emit(Some(Box::new(SurfaceExpr::Opaque(1)))),
    };
    let attr = vec![ConfigArg::ItemTypeArg(TypeExpr::Named(6))];
    let d = try_stream(attr, input).unwrap();
    assert_eq!(
        d.ret,
        DualReturn::Fallible {
            output: TypeExpr::Named(8),
            item: TypeExpr::Named(6),
            lifetime: LifetimeSpec::Unbounded,
        }
    );
    assert_eq!(d.body, LoweredExpr::SuspendItem(Box::new(LoweredExpr::Opaque(1))));
}
