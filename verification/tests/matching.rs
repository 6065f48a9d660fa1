use sigmatch::compare::{
    compare, compare_argument, compare_decl, compare_item, compare_kind, compare_primitive,
    compare_return, compare_type, distance, Compare,
};
use sigmatch::context::{is_self_name, Context, DEPTH_LIMIT};
use sigmatch::item::{
    Callable, Generics, Item, ItemKind, ItemType, Parameter, PathArguments, Signature,
    WherePredicate,
};
use sigmatch::outcome::CompareError;
use sigmatch::query::{
    slots_equal, types_equal, Argument, FnDecl, FnRetTy, Function, Query, QueryKind, Type,
};
use sigmatch::similarity::{DiscreteSimilarity, Ratio, Similarities, Similarity};

const EQUIVALENT: Similarity = Similarity::Discrete(DiscreteSimilarity::Equivalent);
const SUBEQUAL: Similarity = Similarity::Discrete(DiscreteSimilarity::Subequal);
const DIFFERENT: Similarity = Similarity::Discrete(DiscreteSimilarity::Different);

fn graded(numerator: usize, denominator: usize) -> Similarity {
    Similarity::Continuous(Ratio { numerator, denominator })
}

fn sims(result: Result<Similarities, CompareError>) -> Result<Vec<Similarity>, CompareError> {
    result.map(|list| list.to_vec())
}

fn q_prim(name: &str) -> Type {
    Type::Primitive(name.to_string())
}

fn q_generic(name: &str) -> Type {
    Type::Generic(name.to_string())
}

fn q_ref(mutable: bool, inner: Type) -> Type {
    Type::BorrowedRef { mutable, type_: Box::new(inner) }
}

fn i_prim(name: &str) -> ItemType {
    ItemType::Primitive(name.to_string())
}

fn i_generic(name: &str) -> ItemType {
    ItemType::Generic(name.to_string())
}

fn i_ref(mutable: bool, inner: ItemType) -> ItemType {
    ItemType::BorrowedRef { mutable, type_: Box::new(inner) }
}

fn typed(ty: Type) -> Argument {
    Argument { ty: Some(ty), name: None }
}

fn param(name: &str, ty: ItemType) -> Parameter {
    Parameter { name: name.to_string(), ty }
}

fn no_generics() -> Generics {
    Generics { params: vec![], where_predicates: vec![] }
}

fn function_query(inputs: Option<Vec<Argument>>, output: Option<FnRetTy>) -> Query {
    Query {
        name: None,
        kind: Some(QueryKind::FunctionQuery(Function { decl: FnDecl { inputs, output } })),
    }
}

fn function_item(inputs: Vec<Parameter>, output: Option<ItemType>, generics: Generics) -> Item {
    Item {
        name: None,
        inner: ItemKind::Function(Callable { decl: Signature { inputs, output }, generics }),
    }
}

fn type_sims(q: &Type, i: &ItemType) -> Result<Vec<Similarity>, CompareError> {
    let mut ctx = Context::new();
    sims(compare_type(q, i, &mut ctx))
}

#[test]
fn primitive_equal_names_are_equivalent() {
    assert_eq!(type_sims(&q_prim("i32"), &i_prim("i32")), Ok(vec![EQUIVALENT]));
    assert_eq!(
        compare_primitive(&"i32".to_string(), &"i32".to_string()).to_vec(),
        vec![EQUIVALENT]
    );
}

#[test]
fn primitive_unequal_names_are_different() {
    assert_eq!(type_sims(&q_prim("i32"), &i_prim("bool")), Ok(vec![DIFFERENT]));
    assert_eq!(
        compare_primitive(&"i32".to_string(), &"bool".to_string()).to_vec(),
        vec![DIFFERENT]
    );
}

#[test]
fn candidate_variable_binds_once_and_must_agree() {
    let query = function_query(
        Some(vec![typed(q_prim("i32")), typed(q_prim("i32"))]),
        Some(FnRetTy::Return(q_prim("i32"))),
    );
    let item = function_item(
        vec![param("a", i_generic("T")), param("b", i_generic("T"))],
        Some(i_generic("T")),
        Generics { params: vec!["T".to_string()], where_predicates: vec![] },
    );
    assert_eq!(sims(compare(&query, &item)), Ok(vec![SUBEQUAL, EQUIVALENT, EQUIVALENT]));
}

#[test]
fn candidate_variable_conflict_is_different() {
    let query = function_query(
        Some(vec![typed(q_prim("i32")), typed(q_prim("bool"))]),
        Some(FnRetTy::Return(q_prim("i32"))),
    );
    let item = function_item(
        vec![param("a", i_generic("T")), param("b", i_generic("T"))],
        Some(i_generic("T")),
        Generics { params: vec!["T".to_string()], where_predicates: vec![] },
    );
    assert_eq!(sims(compare(&query, &item)), Ok(vec![SUBEQUAL, DIFFERENT, EQUIVALENT]));
}

#[test]
fn query_variable_against_concrete_types() {
    let query = function_query(
        Some(vec![typed(q_generic("T")), typed(q_generic("T"))]),
        Some(FnRetTy::Return(q_generic("T"))),
    );
    let item = function_item(
        vec![param("a", i_prim("i32")), param("b", i_prim("i32"))],
        Some(i_prim("i32")),
        no_generics(),
    );
    assert_eq!(sims(compare(&query, &item)), Ok(vec![DIFFERENT, DIFFERENT, DIFFERENT]));
}

#[test]
fn bindings_are_kept_in_the_context() {
    let q = q_prim("i32");
    let other = q_prim("u8");
    let i = i_generic("T");
    let mut ctx = Context::new();
    assert!(ctx.find_binding(&"T".to_string()).is_none());
    assert_eq!(sims(compare_type(&q, &i, &mut ctx)), Ok(vec![SUBEQUAL]));
    assert_eq!(ctx.bindings.len(), 1);
    assert!(types_equal(ctx.find_binding(&"T".to_string()).unwrap(), &q));
    assert_eq!(sims(compare_type(&other, &i, &mut ctx)), Ok(vec![DIFFERENT]));
    assert_eq!(sims(compare_type(&q, &i, &mut ctx)), Ok(vec![EQUIVALENT]));
    assert_eq!(ctx.bindings.len(), 1);
}

#[test]
fn tuple_arity_mismatch_adds_one_different() {
    let q = Type::Tuple(vec![Some(q_prim("i32"))]);
    let i = ItemType::Tuple(vec![i_prim("i32"), i_prim("i32")]);
    assert_eq!(type_sims(&q, &i), Ok(vec![EQUIVALENT, EQUIVALENT, DIFFERENT]));
}

#[test]
fn tuple_longer_pattern_adds_differents() {
    let q = Type::Tuple(vec![Some(q_prim("i32")), None, Some(q_prim("u8"))]);
    let i = ItemType::Tuple(vec![i_prim("bool")]);
    assert_eq!(type_sims(&q, &i), Ok(vec![DIFFERENT, EQUIVALENT, DIFFERENT, DIFFERENT]));
}

#[test]
fn tuple_absent_element_is_a_wildcard() {
    let q = Type::Tuple(vec![None, Some(q_prim("u8"))]);
    let i = ItemType::Tuple(vec![i_prim("bool"), i_prim("u8")]);
    assert_eq!(type_sims(&q, &i), Ok(vec![EQUIVALENT, EQUIVALENT]));
}

#[test]
fn empty_tuples_are_equivalent() {
    assert_eq!(
        type_sims(&Type::Tuple(vec![]), &ItemType::Tuple(vec![])),
        Ok(vec![EQUIVALENT])
    );
}

#[test]
fn slice_with_and_without_element_pattern() {
    let i = ItemType::Slice(Box::new(i_prim("u8")));
    assert_eq!(type_sims(&Type::Slice(None), &i), Ok(vec![EQUIVALENT]));
    assert_eq!(
        type_sims(&Type::Slice(Some(Box::new(q_prim("u8")))), &i),
        Ok(vec![EQUIVALENT, EQUIVALENT])
    );
    assert_eq!(
        type_sims(&Type::Slice(Some(Box::new(q_prim("i8")))), &i),
        Ok(vec![EQUIVALENT, DIFFERENT])
    );
}

#[test]
fn reference_mutability_mismatch_adds_one_subequal() {
    let q = q_ref(true, q_prim("i32"));
    assert_eq!(type_sims(&q, &i_ref(false, i_prim("i32"))), Ok(vec![EQUIVALENT, SUBEQUAL]));
}

#[test]
fn reference_mutability_match_adds_nothing() {
    let q = q_ref(true, q_prim("i32"));
    assert_eq!(type_sims(&q, &i_ref(true, i_prim("i32"))), Ok(vec![EQUIVALENT]));
}

#[test]
fn raw_pointer_mutability() {
    let q = Type::RawPointer { mutable: false, type_: Box::new(q_prim("u8")) };
    let same = ItemType::RawPointer { mutable: false, type_: Box::new(i_prim("u8")) };
    let other = ItemType::RawPointer { mutable: true, type_: Box::new(i_prim("u8")) };
    assert_eq!(type_sims(&q, &same), Ok(vec![EQUIVALENT]));
    assert_eq!(type_sims(&q, &other), Ok(vec![EQUIVALENT, SUBEQUAL]));
}

#[test]
fn pointer_on_one_side_only_is_subequal() {
    assert_eq!(
        type_sims(&q_prim("i32"), &i_ref(false, i_prim("i32"))),
        Ok(vec![EQUIVALENT, SUBEQUAL])
    );
    assert_eq!(
        type_sims(&q_ref(false, q_prim("i32")), &i_prim("i32")),
        Ok(vec![EQUIVALENT, SUBEQUAL])
    );
    let raw = ItemType::RawPointer { mutable: true, type_: Box::new(i_prim("i32")) };
    assert_eq!(
        type_sims(&q_ref(true, q_prim("i32")), &raw),
        Ok(vec![EQUIVALENT, SUBEQUAL, SUBEQUAL])
    );
}

#[test]
fn mismatched_forms_are_different() {
    assert_eq!(type_sims(&q_prim("i32"), &ItemType::Tuple(vec![])), Ok(vec![DIFFERENT]));
    assert_eq!(type_sims(&Type::Never, &ItemType::Other), Ok(vec![DIFFERENT]));
    assert_eq!(type_sims(&q_generic("T"), &i_prim("i32")), Ok(vec![DIFFERENT]));
}

#[test]
fn path_names_are_graded() {
    let q = Type::UnresolvedPath { name: "Vec".to_string(), args: None };
    let i = ItemType::ResolvedPath {
        name: "Vec".to_string(),
        args: Some(PathArguments::AngleBracketed(vec![Some(i_prim("u8"))])),
    };
    assert_eq!(type_sims(&q, &i), Ok(vec![graded(0, 3)]));
    let other = ItemType::ResolvedPath { name: "Map".to_string(), args: None };
    assert_eq!(type_sims(&q, &other), Ok(vec![graded(3, 3)]));
}

#[test]
fn path_arguments_are_compared_by_position() {
    let q = Type::UnresolvedPath {
        name: "Result".to_string(),
        args: Some(vec![Some(q_prim("i32")), None, Some(q_prim("u8")), Some(q_prim("u8"))]),
    };
    let i = ItemType::ResolvedPath {
        name: "Result".to_string(),
        args: Some(PathArguments::AngleBracketed(vec![
            Some(i_prim("i32")),
            Some(i_prim("bool")),
            None,
        ])),
    };
    assert_eq!(type_sims(&q, &i), Ok(vec![graded(0, 6), EQUIVALENT, DIFFERENT]));
}

#[test]
fn path_arguments_missing_on_the_candidate() {
    let q = Type::UnresolvedPath {
        name: "Option".to_string(),
        args: Some(vec![Some(q_prim("i32")), None]),
    };
    let i = ItemType::ResolvedPath { name: "Option".to_string(), args: None };
    assert_eq!(type_sims(&q, &i), Ok(vec![graded(0, 6), DIFFERENT, DIFFERENT]));
}

#[test]
fn parenthesized_arguments_are_not_judged() {
    let q = Type::UnresolvedPath { name: "Fn".to_string(), args: Some(vec![Some(q_prim("i32"))]) };
    let i = ItemType::ResolvedPath {
        name: "Fn".to_string(),
        args: Some(PathArguments::Parenthesized),
    };
    assert_eq!(type_sims(&q, &i), Ok(vec![graded(0, 2)]));
}

#[test]
fn self_is_resolved_through_the_predicates() {
    let predicate = WherePredicate::Equality { lhs: i_generic("Self"), rhs: i_prim("u8") };
    let other = WherePredicate::Other;
    let unrelated = WherePredicate::Equality { lhs: i_generic("T"), rhs: i_prim("i64") };
    let q = q_prim("u8");
    let i = i_generic("Self");
    let mut ctx = Context::new();
    ctx.predicates.push(&other);
    ctx.predicates.push(&unrelated);
    ctx.predicates.push(&predicate);
    assert!(matches!(ctx.find_self(), Some(ItemType::Primitive(name)) if name == "u8"));
    assert_eq!(sims(compare_type(&q, &i, &mut ctx)), Ok(vec![EQUIVALENT]));
    assert!(ctx.bindings.is_empty());
}

#[test]
fn unresolved_self_is_an_error() {
    assert_eq!(
        type_sims(&q_prim("u8"), &i_generic("Self")),
        Err(CompareError::UnresolvedSelfType)
    );
    let query = function_query(Some(vec![typed(q_prim("u8"))]), None);
    let item = function_item(vec![param("self", i_generic("Self"))], None, no_generics());
    assert_eq!(sims(compare(&query, &item)), Err(CompareError::UnresolvedSelfType));
}

#[test]
fn self_defined_by_itself_hits_the_depth_limit() {
    let predicate = WherePredicate::Equality { lhs: i_generic("Self"), rhs: i_generic("Self") };
    let q = q_prim("u8");
    let i = i_generic("Self");
    let mut ctx = Context::new();
    ctx.predicates.push(&predicate);
    assert_eq!(sims(compare_type(&q, &i, &mut ctx)), Err(CompareError::DepthExceeded));
}

#[test]
fn depth_limit_bounds_the_descent() {
    let q = q_ref(false, q_ref(false, q_prim("u8")));
    let i = i_ref(false, i_ref(false, i_prim("u8")));
    let mut ctx = Context::new();
    assert_eq!(ctx.limit, DEPTH_LIMIT);
    ctx.limit = 2;
    assert_eq!(sims(compare_type(&q, &i, &mut ctx)), Err(CompareError::DepthExceeded));
    ctx.limit = 3;
    assert_eq!(sims(compare_type(&q, &i, &mut ctx)), Ok(vec![EQUIVALENT]));
    ctx.limit = 0;
    assert_eq!(
        sims(compare_type(&q_prim("u8"), &i_prim("u8"), &mut ctx)),
        Err(CompareError::DepthExceeded)
    );
}

#[test]
fn untyped_argument_contributes_nothing() {
    let arg = Argument { ty: None, name: None };
    let p = param("value", ItemType::Tuple(vec![i_prim("i32")]));
    let mut ctx = Context::new();
    assert_eq!(sims(compare_argument(&arg, &p, &mut ctx)), Ok(vec![]));
    let q = function_query(Some(vec![Argument { ty: None, name: None }]), None);
    let item = function_item(vec![param("x", i_generic("T"))], None, no_generics());
    assert_eq!(sims(compare(&q, &item)), Ok(vec![]));
}

#[test]
fn argument_name_then_type() {
    let arg = Argument { ty: Some(q_prim("i32")), name: Some("valve".to_string()) };
    let p = param("value", i_prim("i32"));
    let mut ctx = Context::new();
    assert_eq!(sims(compare_argument(&arg, &p, &mut ctx)), Ok(vec![graded(1, 5), EQUIVALENT]));
}

#[test]
fn return_type_pairings() {
    let mut ctx = Context::new();
    let none: Option<ItemType> = None;
    let some: Option<ItemType> = Some(i_prim("i32"));
    let default = FnRetTy::DefaultReturn;
    let wanted = FnRetTy::Return(q_prim("i32"));
    assert_eq!(sims(compare_return(&default, &none, &mut ctx)), Ok(vec![EQUIVALENT]));
    assert_eq!(sims(compare_return(&default, &some, &mut ctx)), Ok(vec![DIFFERENT]));
    assert_eq!(sims(compare_return(&wanted, &none, &mut ctx)), Ok(vec![DIFFERENT]));
    assert_eq!(sims(compare_return(&wanted, &some, &mut ctx)), Ok(vec![EQUIVALENT]));
}

#[test]
fn declaration_arity() {
    let sig = Signature { inputs: vec![param("a", i_prim("u8")), param("b", i_prim("u8"))], output: None };
    let empty = Signature { inputs: vec![], output: None };
    let open = FnDecl { inputs: None, output: None };
    let none = FnDecl { inputs: Some(vec![]), output: None };
    let three = FnDecl {
        inputs: Some(vec![typed(q_prim("u8")), typed(q_prim("i8")), typed(q_prim("u8"))]),
        output: None,
    };
    let two = FnDecl { inputs: Some(vec![typed(q_prim("u8")), typed(q_prim("u8"))]), output: None };
    let mut ctx = Context::new();
    assert_eq!(sims(compare_decl(&open, &sig, &mut ctx)), Ok(vec![]));
    assert_eq!(sims(compare_decl(&none, &empty, &mut ctx)), Ok(vec![EQUIVALENT]));
    assert_eq!(sims(compare_decl(&none, &sig, &mut ctx)), Ok(vec![DIFFERENT, DIFFERENT]));
    assert_eq!(sims(compare_decl(&three, &sig, &mut ctx)), Ok(vec![EQUIVALENT, DIFFERENT, DIFFERENT]));
    assert_eq!(sims(compare_decl(&three, &empty, &mut ctx)), Ok(vec![DIFFERENT, DIFFERENT, DIFFERENT]));
    assert_eq!(sims(compare_decl(&two, &sig, &mut ctx)), Ok(vec![EQUIVALENT, EQUIVALENT]));
}

#[test]
fn function_query_rejects_other_kinds() {
    let kind = QueryKind::FunctionQuery(Function { decl: FnDecl { inputs: None, output: None } });
    let mut ctx = Context::new();
    assert_eq!(sims(compare_kind(&kind, &ItemKind::Other, &mut ctx)), Ok(vec![DIFFERENT]));
}

#[test]
fn methods_match_like_functions() {
    let kind = QueryKind::FunctionQuery(Function {
        decl: FnDecl { inputs: Some(vec![]), output: Some(FnRetTy::DefaultReturn) },
    });
    let callable = || Callable { decl: Signature { inputs: vec![], output: None }, generics: no_generics() };
    let function = ItemKind::Function(callable());
    let method = ItemKind::Method(callable());
    let mut ctx = Context::new();
    assert_eq!(sims(compare_kind(&kind, &function, &mut ctx)), Ok(vec![EQUIVALENT, EQUIVALENT]));
    assert_eq!(sims(compare_kind(&kind, &method, &mut ctx)), Ok(vec![EQUIVALENT, EQUIVALENT]));
}

#[test]
fn item_names() {
    let named = Query { name: Some("push".to_string()), kind: None };
    let unnamed = Query { name: None, kind: None };
    let item = Item { name: Some("pop".to_string()), inner: ItemKind::Other };
    let nameless = Item { name: None, inner: ItemKind::Other };
    assert_eq!(sims(compare(&named, &item)), Ok(vec![graded(3, 4)]));
    assert_eq!(sims(compare(&named, &nameless)), Ok(vec![DIFFERENT]));
    assert_eq!(sims(compare(&unnamed, &item)), Ok(vec![]));
    assert_eq!(sims(compare(&unnamed, &nameless)), Ok(vec![]));
}

#[test]
fn callable_predicates_come_into_scope() {
    let generics = Generics {
        params: vec!["T".to_string()],
        where_predicates: vec![WherePredicate::Equality {
            lhs: i_generic("Self"),
            rhs: i_prim("u8"),
        }],
    };
    let query = function_query(Some(vec![typed(q_prim("u8"))]), None);
    let item = function_item(vec![param("self", i_generic("Self"))], None, generics);
    let mut ctx = Context::new();
    assert_eq!(sims(compare_item(&query, &item, &mut ctx)), Ok(vec![EQUIVALENT]));
    assert_eq!(ctx.predicates.len(), 1);
    assert_eq!(ctx.params.len(), 1);
}

#[test]
fn push_against_vec_push() {
    let query = Query {
        name: Some("push".to_string()),
        kind: Some(QueryKind::FunctionQuery(Function {
            decl: FnDecl {
                inputs: Some(vec![typed(q_ref(true, q_generic("Self"))), typed(q_generic("T"))]),
                output: Some(FnRetTy::DefaultReturn),
            },
        })),
    };
    let vec_of_t = ItemType::ResolvedPath {
        name: "Vec".to_string(),
        args: Some(PathArguments::AngleBracketed(vec![Some(i_generic("T"))])),
    };
    let item = Item {
        name: Some("push".to_string()),
        inner: ItemKind::Method(Callable {
            decl: Signature {
                inputs: vec![
                    param("self", i_ref(true, i_generic("Self"))),
                    param("value", i_generic("T")),
                ],
                output: None,
            },
            generics: Generics {
                params: vec!["T".to_string()],
                where_predicates: vec![WherePredicate::Equality {
                    lhs: i_generic("Self"),
                    rhs: vec_of_t,
                }],
            },
        }),
    };
    let result = compare(&query, &item).unwrap();
    assert_eq!(result.to_vec(), vec![graded(0, 4), DIFFERENT, SUBEQUAL, EQUIVALENT]);
    assert_eq!(
        result.score_terms(),
        vec![
            Ratio { numerator: 0, denominator: 4 },
            Ratio { numerator: 1, denominator: 1 },
            Ratio { numerator: 1, denominator: 4 },
            Ratio { numerator: 0, denominator: 1 },
        ]
    );
}

#[test]
fn push_with_the_receiver_spelled_out() {
    let query = Query {
        name: Some("push".to_string()),
        kind: Some(QueryKind::FunctionQuery(Function {
            decl: FnDecl {
                inputs: Some(vec![
                    typed(q_ref(
                        true,
                        Type::UnresolvedPath { name: "Vec".to_string(), args: None },
                    )),
                    typed(q_generic("T")),
                ]),
                output: Some(FnRetTy::DefaultReturn),
            },
        })),
    };
    let item = Item {
        name: Some("push".to_string()),
        inner: ItemKind::Method(Callable {
            decl: Signature {
                inputs: vec![
                    param("self", i_ref(true, i_generic("Self"))),
                    param("value", i_generic("T")),
                ],
                output: None,
            },
            generics: Generics {
                params: vec!["T".to_string()],
                where_predicates: vec![WherePredicate::Equality {
                    lhs: i_generic("Self"),
                    rhs: ItemType::ResolvedPath {
                        name: "Vec".to_string(),
                        args: Some(PathArguments::AngleBracketed(vec![Some(i_generic("T"))])),
                    },
                }],
            },
        }),
    };
    assert_eq!(
        sims(compare(&query, &item)),
        Ok(vec![graded(0, 4), graded(0, 3), SUBEQUAL, EQUIVALENT])
    );
}

#[test]
fn each_comparison_starts_fresh() {
    let query = function_query(Some(vec![typed(q_prim("i32"))]), None);
    let item = function_item(vec![param("a", i_generic("T"))], None, no_generics());
    assert_eq!(sims(compare(&query, &item)), Ok(vec![SUBEQUAL]));
    assert_eq!(sims(compare(&query, &item)), Ok(vec![SUBEQUAL]));
}

#[test]
fn structural_equality_of_patterns() {
    let a = Type::UnresolvedPath {
        name: "Vec".to_string(),
        args: Some(vec![Some(q_ref(false, q_prim("u8"))), None]),
    };
    let b = Type::UnresolvedPath {
        name: "Vec".to_string(),
        args: Some(vec![Some(q_ref(false, q_prim("u8"))), None]),
    };
    let c = Type::UnresolvedPath {
        name: "Vec".to_string(),
        args: Some(vec![Some(q_ref(true, q_prim("u8"))), None]),
    };
    assert!(types_equal(&a, &b));
    assert!(!types_equal(&a, &c));
    assert!(!types_equal(&a, &Type::Never));
    assert!(types_equal(&Type::Never, &Type::Never));
    assert!(types_equal(&Type::Slice(None), &Type::Slice(None)));
    assert!(!types_equal(&Type::Slice(None), &Type::Slice(Some(Box::new(q_prim("u8"))))));
    assert!(!types_equal(&q_generic("T"), &q_prim("T")));
    assert!(slots_equal(&vec![None, Some(q_prim("u8"))], &vec![None, Some(q_prim("u8"))]));
    assert!(!slots_equal(&vec![None], &vec![None, None]));
    assert!(!slots_equal(&vec![None], &vec![Some(q_prim("u8"))]));
}

#[test]
fn self_marker_is_recognised() {
    assert!(is_self_name(&"Self".to_string()));
    assert!(!is_self_name(&"self".to_string()));
    assert!(!is_self_name(&"T".to_string()));
}

#[test]
fn distance_between_lengths() {
    assert_eq!(distance(3, 5), 2);
    assert_eq!(distance(5, 3), 2);
    assert_eq!(distance(4, 4), 0);
}

#[test]
fn trait_methods_compare_as_the_functions_do() {
    let q = q_prim("i32");
    let i = i_ref(false, i_prim("i32"));
    let mut ctx = Context::new();
    assert_eq!(sims(q.compare(&i, &mut ctx)), Ok(vec![EQUIVALENT, SUBEQUAL]));
    let name = "push".to_string();
    let other = "pull".to_string();
    assert_eq!(sims(name.compare(&other, &mut ctx)), Ok(vec![graded(2, 4)]));
    let query = Query { name: Some("pop".to_string()), kind: None };
    let item = Item { name: None, inner: ItemKind::Other };
    assert_eq!(sims(query.compare(&item, &mut ctx)), Ok(vec![DIFFERENT]));
}

#[test]
fn entering_a_declaration_extends_the_scope() {
    let first = Generics {
        params: vec!["T".to_string()],
        where_predicates: vec![WherePredicate::Other],
    };
    let second = Generics {
        params: vec!["U".to_string(), "V".to_string()],
        where_predicates: vec![WherePredicate::Equality {
            lhs: i_generic("Self"),
            rhs: i_prim("bool"),
        }],
    };
    let mut ctx = Context::new();
    assert!(ctx.find_self().is_none());
    ctx.enter(&first);
    assert!(ctx.find_self().is_none());
    ctx.enter(&second);
    assert_eq!(ctx.params, vec!["T", "U", "V"]);
    assert_eq!(ctx.predicates.len(), 2);
    assert!(matches!(ctx.find_self(), Some(ItemType::Primitive(name)) if name == "bool"));
    assert!(ctx.bindings.is_empty());
}

#[test]
fn first_binding_of_a_name_is_the_one_found() {
    let name = "T".to_string();
    let first = q_prim("u8");
    let second = q_prim("u16");
    let mut ctx = Context::new();
    ctx.bind(&name, &first);
    ctx.bind(&name, &second);
    assert!(types_equal(ctx.find_binding(&name).unwrap(), &first));
    assert!(ctx.find_binding(&"U".to_string()).is_none());
}
