use aster::ast::{
    Arg, ExprKind, FunctionRetTy, Generics, ItemKind, Path, StmtKind, Ty, TyKind, TyParam,
};
use aster::{AstBuilder, Ctx, Ident, Name, Span};

fn span(lo: u32, hi: u32) -> Span {
    Span::At { lo, hi }
}

fn path_of(ty: &Ty) -> &Path {
    match &ty.kind {
        TyKind::Path(p) => p,
        other => panic!("expected a path type, found {:?}", other),
    }
}

#[test]
fn intern_same_text_gives_same_handle() {
    let mut ctx = Ctx::new();
    let a = ctx.intern("foo");
    let b = ctx.intern("foo");
    assert_eq!(a, b);
    assert_eq!(ctx.resolve(a), "foo");
}

#[test]
fn intern_distinct_texts_give_distinct_handles() {
    let mut ctx = Ctx::new();
    let a = ctx.intern("foo");
    let b = ctx.intern("bar");
    let c = ctx.intern("foo");
    assert_ne!(a, b);
    assert_eq!(a, c);
    assert_eq!(ctx.resolve(b), "bar");
}

#[test]
fn intern_empty_text() {
    let mut ctx = Ctx::new();
    let a = ctx.intern("");
    let b = ctx.intern("");
    let c = ctx.intern("x");
    assert_eq!(a, b);
    assert_ne!(a, c);
    assert_eq!(ctx.resolve(a), "");
}

#[test]
fn conversion_from_text_and_from_handle_agree() {
    let mut ctx = Ctx::new();
    let b = AstBuilder::new();
    let from_text = b.id(&mut ctx, "value");
    let from_handle = b.id(&mut ctx, from_text);
    let from_string = b.id(&mut ctx, String::from("value"));
    let from_name = b.id(&mut ctx, from_text.name);
    assert_eq!(from_text, from_handle);
    assert_eq!(from_text, from_string);
    assert_eq!(from_text, from_name);
}

#[test]
fn names_and_idents_share_the_table() {
    let mut ctx = Ctx::new();
    let b = AstBuilder::new();
    let n: Name = b.name(&mut ctx, "field");
    let i: Ident = b.id(&mut ctx, "field");
    assert_eq!(i.name, n);
    assert_eq!(b.name(&mut ctx, i), n);
    assert_eq!(b.name(&mut ctx, String::from("field")), n);
    assert_ne!(b.name(&mut ctx, "other"), n);
}

#[test]
fn default_span_is_no_location() {
    let mut ctx = Ctx::new();
    let b = AstBuilder::new();
    assert_eq!(b.span, Span::NoLocation);
    let ty = b.ty().id(&mut ctx, "u8");
    assert_eq!(ty.span, Span::NoLocation);
}

#[test]
fn span_reaches_the_finished_node() {
    let mut ctx = Ctx::new();
    let s = span(3, 9);
    let b = AstBuilder::new().span(s);
    let ty = b.ty().id(&mut ctx, "u8");
    assert_eq!(ty.span, s);
    assert_eq!(path_of(&ty).span, s);
    let g = b.generics().build();
    assert_eq!(g.span, s);
    let e = b.expr().int_lit(7);
    assert_eq!(e.span, s);
    let blk = b.block().build();
    assert_eq!(blk.span, s);
}

#[test]
fn child_spawned_before_span_change_keeps_old_span() {
    let mut ctx = Ctx::new();
    let s1 = span(1, 2);
    let s2 = span(5, 8);
    let b = AstBuilder::new().span(s1);
    let child = b.ty();
    let b2 = b.span(s2);
    let later = b2.ty();
    let t1 = child.id(&mut ctx, "A");
    let t2 = later.id(&mut ctx, "A");
    assert_eq!(t1.span, s1);
    assert_eq!(t2.span, s2);
    assert_eq!(b.span, s1);
}

#[test]
fn builder_span_at_finish_is_used() {
    let mut ctx = Ctx::new();
    let s1 = span(1, 2);
    let s2 = span(10, 20);
    let b = AstBuilder::new().span(s1);
    let ty = b.ty().span(s2).id(&mut ctx, "T");
    assert_eq!(ty.span, s2);
}

#[test]
fn fn_decl_arguments_keep_order() {
    let mut ctx = Ctx::new();
    let b = AstBuilder::new();
    let decl = b
        .fn_decl()
        .arg(&mut ctx, "x1")
        .ty_id(&mut ctx, "i32")
        .arg(&mut ctx, "x2")
        .ty_id(&mut ctx, "u8")
        .arg(&mut ctx, "x3")
        .ty_id(&mut ctx, "bool")
        .default_return();
    let names: Vec<Ident> = decl.inputs.iter().map(|a| a.ident).collect();
    let expected = vec![b.id(&mut ctx, "x1"), b.id(&mut ctx, "x2"), b.id(&mut ctx, "x3")];
    assert_eq!(names, expected);
    let u8_id = b.id(&mut ctx, "u8");
    assert_eq!(path_of(&decl.inputs[1].ty).segments, vec![u8_id]);
}

#[test]
fn with_args_appends_in_order() {
    let mut ctx = Ctx::new();
    let b = AstBuilder::new();
    let a1 = b.arg(&mut ctx, "a").ty_id(&mut ctx, "A");
    let a2 = b.arg(&mut ctx, "b").ty_id(&mut ctx, "B");
    let a0 = b.arg(&mut ctx, "z").ty_id(&mut ctx, "Z");
    let decl = b.fn_decl().with_arg(a0).with_args(vec![a1, a2]).default_return();
    let names: Vec<Ident> = decl.inputs.iter().map(|a| a.ident).collect();
    let expected = vec![b.id(&mut ctx, "z"), b.id(&mut ctx, "a"), b.id(&mut ctx, "b")];
    assert_eq!(names, expected);
}

#[test]
fn block_statements_keep_order() {
    let mut ctx = Ctx::new();
    let b = AstBuilder::new();
    let s1 = b.stmt().build_semi(b.expr().int_lit(1));
    let s2 = b.stmt().build_semi(b.expr().int_lit(2));
    let s3 = b.stmt().build_semi(b.expr().int_lit(3));
    let s0 = b.stmt().let_id(&mut ctx, "v").build();
    let blk = b.block().with_stmt(s0).with_stmts(vec![s1, s2, s3]).build();
    assert_eq!(blk.stmts.len(), 4);
    let values: Vec<u64> = blk.stmts[1..]
        .iter()
        .map(|s| match &s.kind {
            StmtKind::Semi(e) => match e.kind {
                ExprKind::Int(v) => v,
                _ => panic!("expected an integer"),
            },
            _ => panic!("expected a statement with `;`"),
        })
        .collect();
    assert_eq!(values, vec![1, 2, 3]);
    assert!(blk.expr.is_none());
}

#[test]
fn generics_type_parameters_keep_order() {
    let mut ctx = Ctx::new();
    let b = AstBuilder::new().span(span(0, 4));
    let g = b
        .generics()
        .ty_param(&mut ctx, "T")
        .build()
        .ty_param(&mut ctx, "U")
        .build()
        .ty_param(&mut ctx, "V")
        .build()
        .build();
    let names: Vec<Ident> = g.ty_params.iter().map(|p| p.ident).collect();
    let expected = vec![b.id(&mut ctx, "T"), b.id(&mut ctx, "U"), b.id(&mut ctx, "V")];
    assert_eq!(names, expected);
    assert!(g.ty_params.iter().all(|p| p.span == span(0, 4)));
}

#[test]
fn path_segments_keep_order() {
    let mut ctx = Ctx::new();
    let b = AstBuilder::new();
    let p = b.path().global().id(&mut ctx, "std").id(&mut ctx, "vec").id(&mut ctx, "Vec").build();
    assert!(p.global);
    let expected = vec![b.id(&mut ctx, "std"), b.id(&mut ctx, "vec"), b.id(&mut ctx, "Vec")];
    assert_eq!(p.segments, expected);
}

#[test]
fn call_arguments_keep_order() {
    let mut ctx = Ctx::new();
    let b = AstBuilder::new();
    let f = b.expr().id(&mut ctx, "f");
    let call = b
        .expr()
        .call(f)
        .with_arg(b.expr().int_lit(10))
        .with_arg(b.expr().int_lit(20))
        .build();
    match call.kind {
        ExprKind::Call(callee, args) => {
            let f_id = b.id(&mut ctx, "f");
            match callee.kind {
                ExprKind::Path(p) => assert_eq!(p.segments, vec![f_id]),
                _ => panic!("expected a path callee"),
            }
            assert_eq!(args.len(), 2);
            assert_eq!(args[0].kind, ExprKind::Int(10));
            assert_eq!(args[1].kind, ExprKind::Int(20));
        }
        _ => panic!("expected a call"),
    }
}

fn sample_generics(ctx: &mut Ctx) -> Generics {
    let b = AstBuilder::new().span(span(2, 6));
    let bound = b.path().id(ctx, "Clone").build();
    let default = b.ty().unit();
    b.generics()
        .ty_param(ctx, "T")
        .with_bound(bound)
        .with_default(default)
        .build()
        .ty_param(ctx, "U")
        .build()
        .build()
}

#[test]
fn from_generics_round_trip() {
    let mut ctx = Ctx::new();
    let original = sample_generics(&mut ctx);
    let copy = sample_generics(&mut ctx);
    let other_span = AstBuilder::new().span(span(40, 50));
    let rebuilt = other_span.from_generics(copy).build();
    assert_eq!(rebuilt, original);
}

fn sample_ty_param(ctx: &mut Ctx) -> TyParam {
    let b = AstBuilder::new().span(span(7, 8));
    let bound = b.path().id(ctx, "Send").build();
    let default = b.ty().id(ctx, "u32");
    b.ty_param(ctx, "P").with_bound(bound).with_default(default).build()
}

#[test]
fn from_ty_param_round_trip() {
    let mut ctx = Ctx::new();
    let original = sample_ty_param(&mut ctx);
    let copy = sample_ty_param(&mut ctx);
    let rebuilt = AstBuilder::new().from_ty_param(copy).build();
    assert_eq!(rebuilt, original);
}

#[test]
fn from_generics_then_setter_changes_only_that_field() {
    let mut ctx = Ctx::new();
    let original = sample_generics(&mut ctx);
    let n = original.ty_params.len();
    let b = AstBuilder::new();
    let extra = b.ty_param(&mut ctx, "W").build();
    let g = b.from_generics(original).with_ty_param(extra).build();
    assert_eq!(g.ty_params.len(), n + 1);
    assert_eq!(g.span, span(2, 6));
    assert_eq!(g.ty_params[2].ident, b.id(&mut ctx, "W"));
}

#[test]
fn function_item_run_with_one_argument() {
    let mut ctx = Ctx::new();
    let b = AstBuilder::new();
    let decl = b.fn_decl().arg(&mut ctx, "x").ty_id(&mut ctx, "i32").default_return();
    let body = b.block().build();
    let item = b.item().fn_(&mut ctx, "run").build(decl, body);
    assert_eq!(item.ident, b.id(&mut ctx, "run"));
    match &item.kind {
        ItemKind::Fn(decl, generics, body) => {
            assert_eq!(decl.inputs.len(), 1);
            assert_eq!(decl.inputs[0].ident, b.id(&mut ctx, "x"));
            let i32_id = b.id(&mut ctx, "i32");
            assert_eq!(path_of(&decl.inputs[0].ty).segments, vec![i32_id]);
            assert_eq!(decl.output, FunctionRetTy::Default(Span::NoLocation));
            assert!(generics.ty_params.is_empty());
            assert!(body.stmts.is_empty());
            assert!(body.expr.is_none());
        }
        _ => panic!("expected a function item"),
    }
    assert_eq!(ctx.resolve(item.ident.name), "run");
}

#[test]
fn fn_decl_with_return_type() {
    let mut ctx = Ctx::new();
    let b = AstBuilder::new();
    let ret = b.ty().id(&mut ctx, "bool");
    let decl = b.fn_decl().build_output(ret);
    assert!(decl.inputs.is_empty());
    match &decl.output {
        FunctionRetTy::Ty(t) => {
            let bool_id = b.id(&mut ctx, "bool");
            assert_eq!(path_of(t).segments, vec![bool_id]);
        }
        _ => panic!("expected an explicit return type"),
    }
}

#[test]
fn struct_item_fields_keep_order() {
    let mut ctx = Ctx::new();
    let b = AstBuilder::new().span(span(1, 30));
    let t1 = b.ty().id(&mut ctx, "u8");
    let t2 = b.ty().id(&mut ctx, "String");
    let item = b
        .item()
        .struct_(&mut ctx, "Point")
        .field(&mut ctx, "a", t1)
        .field(&mut ctx, "b", t2)
        .build();
    assert_eq!(item.ident, b.id(&mut ctx, "Point"));
    assert_eq!(item.span, span(1, 30));
    match &item.kind {
        ItemKind::Struct(fields, generics) => {
            assert_eq!(fields.len(), 2);
            assert_eq!(fields[0].ident, b.id(&mut ctx, "a"));
            assert_eq!(fields[1].ident, b.id(&mut ctx, "b"));
            let string_id = b.id(&mut ctx, "String");
            assert_eq!(path_of(&fields[1].ty).segments, vec![string_id]);
            assert!(generics.ty_params.is_empty());
        }
        _ => panic!("expected a struct item"),
    }
}

#[test]
fn method_with_nested_generics() {
    let mut ctx = Ctx::new();
    let b = AstBuilder::new().span(span(4, 12));
    let t = b.ty_param(&mut ctx, "T").build();
    let decl = b.fn_decl().default_return();
    let body = b.block().build_expr(b.expr().unit());
    let m = b.method(&mut ctx, "go").generics().with_ty_param(t).build().build(decl, body);
    assert_eq!(m.ident, b.id(&mut ctx, "go"));
    assert_eq!(m.span, span(4, 12));
    assert_eq!(m.generics.ty_params.len(), 1);
    assert_eq!(m.generics.ty_params[0].ident, b.id(&mut ctx, "T"));
    match &m.body.expr {
        Some(e) => assert_eq!(e.kind, ExprKind::Tup(vec![])),
        None => panic!("expected a tail expression"),
    }
}

#[test]
fn let_statement_with_type_and_init() {
    let mut ctx = Ctx::new();
    let b = AstBuilder::new();
    let ty = b.ty().id(&mut ctx, "u64");
    let st = b.stmt().let_id(&mut ctx, "n").with_ty(ty).build_expr(b.expr().int_lit(5));
    match &st.kind {
        StmtKind::Let(id, Some(t), Some(init)) => {
            assert_eq!(*id, b.id(&mut ctx, "n"));
            let u64_id = b.id(&mut ctx, "u64");
            assert_eq!(path_of(t).segments, vec![u64_id]);
            assert_eq!(init.kind, ExprKind::Int(5));
        }
        _ => panic!("expected a typed, initialised let"),
    }
}

#[test]
fn type_shapes() {
    let mut ctx = Ctx::new();
    let b = AstBuilder::new();
    assert_eq!(b.ty().unit().kind, TyKind::Tup(vec![]));
    assert_eq!(b.ty().infer().kind, TyKind::Infer);
    let inner = b.ty().id(&mut ctx, "str");
    let inner_copy = b.ty().id(&mut ctx, "str");
    let r = b.ty().build_ref(inner);
    assert_eq!(r.kind, TyKind::Ref(Box::new(inner_copy)));
    let a = b.ty().id(&mut ctx, "A");
    let c = b.ty().id(&mut ctx, "C");
    let tup = b.ty().build_tuple(vec![a, c]);
    match &tup.kind {
        TyKind::Tup(items) => {
            let a_id = b.id(&mut ctx, "A");
            let c_id = b.id(&mut ctx, "C");
            assert_eq!(path_of(&items[0]).segments, vec![a_id]);
            assert_eq!(path_of(&items[1]).segments, vec![c_id]);
        }
        _ => panic!("expected a tuple type"),
    }
}

#[test]
fn nested_type_path_builder() {
    let mut ctx = Ctx::new();
    let b = AstBuilder::new().span(span(9, 9));
    let ty = b.ty().path().global().id(&mut ctx, "core").id(&mut ctx, "u8").build();
    assert_eq!(ty.span, span(9, 9));
    let p = path_of(&ty);
    assert!(p.global);
    let expected = vec![b.id(&mut ctx, "core"), b.id(&mut ctx, "u8")];
    assert_eq!(p.segments, expected);
}

#[test]
fn arg_builder_standalone() {
    let mut ctx = Ctx::new();
    let b = AstBuilder::new().span(span(3, 4));
    let ty = b.ty().infer();
    let a: Arg = b.arg(&mut ctx, "y").build_ty(ty);
    assert_eq!(a.ident, b.id(&mut ctx, "y"));
    assert_eq!(a.span, span(3, 4));
    assert_eq!(a.ty.kind, TyKind::Infer);
}
