use sexpr_debug::expr::{Expr, Pattern, Symbol, Variable};
use sexpr_debug::interns::{Interns, UNRESOLVED, USER_APP_MODULE};
use sexpr_debug::loaded::{Decl, RocLoadedModule, ENTRY_POINT};
use sexpr_debug::text::{push_decimal, push_int};

const APP: usize = 0;
const LIST: usize = 1;

fn sym(module: usize, ident: usize) -> Symbol {
    Symbol { module, ident }
}

fn var(module: usize, ident: usize) -> Expr {
    Expr::Var(sym(module, ident), Variable { index: 0 })
}

fn arg(e: Expr) -> (Variable, Expr) {
    (Variable { index: 7 }, e)
}

fn interns() -> Interns {
    Interns {
        module_names: vec![USER_APP_MODULE.to_string(), "List".to_string()],
        ident_names: vec![
            vec!["main".to_string(), "x".to_string(), "apples".to_string()],
            vec!["map".to_string(), "len".to_string()],
        ],
    }
}

fn module_with(tables: Vec<Vec<Decl>>) -> RocLoadedModule {
    RocLoadedModule { typechecked: tables, interns: interns() }
}

fn printed(m: &RocLoadedModule, e: &Expr) -> String {
    let mut buf = String::new();
    m.print_expr(&mut buf, e);
    buf
}

fn scenario_main() -> Expr {
    Expr::Call(
        Box::new(var(LIST, 0)),
        vec![arg(var(APP, 1)), arg(Expr::Str("a".to_string()))],
    )
}

#[test]
fn call_of_builtin_with_user_var_and_string() {
    let m = module_with(vec![vec![Decl { symbol: sym(APP, 0), expr: scenario_main() }]]);
    let main_expr = m.find_symbol("main").expect("main is declared");
    assert_eq!(printed(&m, main_expr), "(List.map x \"a\")");
    assert_eq!(m.print_main(), Some("(List.map x \"a\")".to_string()));
}

#[test]
fn missing_main_is_none() {
    let m = module_with(vec![
        vec![Decl { symbol: sym(APP, 1), expr: Expr::Int(1) }],
        vec![],
    ]);
    assert!(m.find_symbol(ENTRY_POINT).is_none());
    assert_eq!(m.print_main(), None);
    let empty = module_with(vec![]);
    assert!(empty.find_symbol("main").is_none());
}

#[test]
fn let_binding_prints_only_its_body() {
    let m = module_with(vec![]);
    let e = Expr::LetNonRec {
        pattern: Pattern::Identifier(sym(APP, 2)),
        value: Box::new(Expr::Int(2)),
        body: Box::new(Expr::Int(42)),
    };
    assert_eq!(printed(&m, &e), "(Int 42)");
    let underscore = Expr::LetNonRec {
        pattern: Pattern::Underscore,
        value: Box::new(Expr::Str("ignored".to_string())),
        body: Box::new(var(APP, 2)),
    };
    assert_eq!(printed(&m, &underscore), "apples");
}

#[test]
fn unsupported_kind_gets_placeholder() {
    let m = module_with(vec![]);
    let e = Expr::Unsupported("When { cond: Var(x) }".to_string());
    let text = printed(&m, &e);
    assert!(text.contains("UNSUPPORTED"));
    assert_eq!(text, "(UNSUPPORTED When { cond: Var(x) })");
}

#[test]
fn empty_list_closes_at_once() {
    let m = module_with(vec![]);
    assert_eq!(printed(&m, &Expr::List(vec![])), "(List)");
}

#[test]
fn list_elements_in_order() {
    let m = module_with(vec![]);
    let e = Expr::List(vec![Expr::Int(1), Expr::Int(-2), var(LIST, 1)]);
    assert_eq!(printed(&m, &e), "(List (Int 1) (Int -2) List.len)");
}

#[test]
fn call_arguments_in_order() {
    let m = module_with(vec![]);
    let no_args = Expr::Call(Box::new(var(APP, 1)), vec![]);
    assert_eq!(printed(&m, &no_args), "(x)");
    let nested = Expr::Call(
        Box::new(var(LIST, 0)),
        vec![
            arg(Expr::List(vec![Expr::Float("1.5".to_string())])),
            arg(Expr::Call(Box::new(var(LIST, 1)), vec![arg(var(APP, 1))])),
            arg(Expr::Int(0)),
        ],
    );
    assert_eq!(printed(&m, &nested), "(List.map (List (Float 1.5)) (List.len x) (Int 0))");
}

#[test]
fn qualifier_only_outside_user_program() {
    let m = module_with(vec![]);
    assert_eq!(m.module_str(&sym(APP, 0)), None);
    assert_eq!(m.module_str(&sym(LIST, 0)), Some("List"));
    assert_eq!(m.symbol_str(&sym(LIST, 0)), "map");
    assert_eq!(m.symbol_str(&sym(APP, 1)), "x");
}

#[test]
fn unresolved_symbol_gets_fallback_text() {
    let m = module_with(vec![]);
    assert_eq!(m.symbol_str(&sym(APP, 9)), UNRESOLVED);
    assert_eq!(m.symbol_str(&sym(5, 0)), UNRESOLVED);
    assert_eq!(m.module_str(&sym(5, 0)), Some(UNRESOLVED));
    assert_eq!(printed(&m, &var(5, 0)), "#unresolved.#unresolved");
}

#[test]
fn first_match_in_table_order_wins() {
    let m = module_with(vec![
        vec![Decl { symbol: sym(APP, 1), expr: Expr::Int(1) }],
        vec![
            Decl { symbol: sym(APP, 0), expr: Expr::Int(2) },
            Decl { symbol: sym(APP, 0), expr: Expr::Int(3) },
        ],
        vec![Decl { symbol: sym(APP, 0), expr: Expr::Int(4) }],
    ]);
    assert_eq!(m.print_main(), Some("(Int 2)".to_string()));
    let x = m.find_symbol("x").expect("x is declared");
    assert_eq!(printed(&m, x), "(Int 1)");
    assert!(m.find_symbol("ma").is_none());
    assert!(m.find_symbol("List.map").is_none());
    assert_eq!(printed(&m, m.find_symbol("map").unwrap_or(&Expr::Int(0))), "(Int 0)");
}

#[test]
fn match_is_on_bare_name_only() {
    let m = module_with(vec![vec![Decl { symbol: sym(LIST, 0), expr: Expr::Int(8) }]]);
    let found = m.find_symbol("map").expect("map is declared");
    assert_eq!(printed(&m, found), "(Int 8)");
}

#[test]
fn printing_twice_gives_the_same_text() {
    let m = module_with(vec![]);
    let e = scenario_main();
    let first = printed(&m, &e);
    let second = printed(&m, &e);
    assert_eq!(first, second);
    let mut buf = String::from("> ");
    m.print_expr(&mut buf, &e);
    assert_eq!(buf, format!("> {}", first));
}

#[test]
fn every_kind_prints_something() {
    let m = module_with(vec![]);
    let kinds = vec![
        Expr::Str(String::new()),
        Expr::Int(0),
        Expr::Float("0.0".to_string()),
        var(APP, 0),
        Expr::Call(Box::new(var(APP, 0)), vec![]),
        Expr::List(vec![]),
        Expr::LetNonRec {
            pattern: Pattern::Underscore,
            value: Box::new(Expr::Int(1)),
            body: Box::new(Expr::Str(String::new())),
        },
        Expr::Unsupported(String::new()),
    ];
    for e in &kinds {
        assert!(!printed(&m, e).is_empty());
    }
    assert_eq!(printed(&m, &Expr::Str(String::new())), "\"\"");
}

#[test]
fn string_literal_is_debug_quoted() {
    let m = module_with(vec![]);
    assert_eq!(printed(&m, &Expr::Str("a\"b\\c\n".to_string())), "\"a\\\"b\\\\c\\n\"");
}

#[test]
fn integer_extremes() {
    let m = module_with(vec![]);
    assert_eq!(printed(&m, &Expr::Int(i128::MIN)), format!("(Int {})", i128::MIN));
    assert_eq!(printed(&m, &Expr::Int(i128::MAX)), format!("(Int {})", i128::MAX));
    assert_eq!(printed(&m, &Expr::Int(-1)), "(Int -1)");
    assert_eq!(printed(&m, &Expr::Int(10)), "(Int 10)");
}

#[test]
fn decimal_text() {
    let mut buf = String::new();
    push_decimal(&mut buf, 0);
    push_decimal(&mut buf, 907);
    push_int(&mut buf, -45);
    assert_eq!(buf, "0907-45");
    let mut big = String::new();
    push_decimal(&mut big, u128::MAX);
    assert_eq!(big, u128::MAX.to_string());
}
