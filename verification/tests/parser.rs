use toylang::parser::Parser;
use toylang::syntax::{BinaryExpr, Expr, Operator, TVar, Type, VarType};
use toylang::token::Token;

#[test]
fn parser_util_lookahead() {
    let mut p = Parser::new("1u64 + 2u64");
    let t1 = p.peek_n(1).unwrap();
    assert_eq!(Token::IAdd, *t1);
    assert_eq!(2, p.consume(2));

    let t2 = p.peek().unwrap();
    assert_eq!(Token::UInt64(2), *t2);
}

#[test]
fn parser_simple_expr() {
    let mut p = Parser::new("1u64 + 2u64 ");
    let res = p.parse_expr_line().unwrap();
    assert_eq!(
        Expr::Binary(Box::new(BinaryExpr {
            op: Operator::IAdd,
            lhs: Expr::UInt64(1),
            rhs: Expr::UInt64(2),
        })),
        res
    );
}

#[test]
fn parser_simple_expr_mul() {
    let mut p = Parser::new("(1u64) + 2u64 * 3u64");
    let res = p.parse_expr_line().unwrap();
    assert_eq!(
        Expr::Binary(Box::new(BinaryExpr {
            op: Operator::IAdd,
            lhs: Expr::UInt64(1),
            rhs: Expr::Binary(Box::new(BinaryExpr {
                op: Operator::IMul,
                lhs: Expr::UInt64(2),
                rhs: Expr::UInt64(3),
            })),
        })),
        res
    );
}

#[test]
fn parser_simple_relational_expr() {
    let mut p = Parser::new("0u64 < 2u64 + 4u64");
    let res = p.parse_expr_line().unwrap();
    assert_eq!(
        Expr::Binary(Box::new(BinaryExpr {
            op: Operator::LT,
            lhs: Expr::UInt64(0),
            rhs: Expr::Binary(Box::new(BinaryExpr {
                op: Operator::IAdd,
                lhs: Expr::UInt64(2),
                rhs: Expr::UInt64(4),
            })),
        })),
        res
    );
}

#[test]
fn parser_simple_logical_expr() {
    let mut p = Parser::new("1u64 && 2u64 < 3u64");
    let res = p.parse_expr_line().unwrap();
    assert_eq!(
        Expr::Binary(Box::new(BinaryExpr {
            op: Operator::LogicalAnd,
            lhs: Expr::UInt64(1),
            rhs: Expr::Binary(Box::new(BinaryExpr {
                op: Operator::LT,
                lhs: Expr::UInt64(2),
                rhs: Expr::UInt64(3),
            })),
        })),
        res
    );
}

#[test]
fn parser_expr_accept() {
    assert!(Parser::new("1u64").parse_expr_line().is_ok());
    assert!(Parser::new("(1u64 + 2u64)").parse_expr_line().is_ok());
    assert!(Parser::new("1u64 && 2u64 < 3u64").parse_expr_line().is_ok());
    assert!(Parser::new("1u64 || 2u64 < 3u64").parse_expr_line().is_ok());
    assert!(Parser::new("1u64 || (2u64) < 3u64 + 4u64")
        .parse_expr_line()
        .is_ok());

    assert!(Parser::new("variable").parse_expr_line().is_ok());
    assert!(Parser::new("a + b").parse_expr_line().is_ok());
    assert!(Parser::new("a + 1u64").parse_expr_line().is_ok());

    assert!(Parser::new("a() + 1u64").parse_expr_line().is_ok());
    assert!(Parser::new("a(b,c) + 1u64").parse_expr_line().is_ok());
}

#[test]
fn parser_simple_ident_expr() {
    let res = Parser::new("abc + 1u64").parse_expr_line().unwrap();
    assert_eq!(
        Expr::Binary(Box::new(BinaryExpr {
            op: Operator::IAdd,
            lhs: Expr::Identifier(TVar {
                s: "abc".to_string(),
                ty: Type::Variable(Box::new(VarType {
                    id: 1,
                    ty: Type::Unknown
                })),
            }),
            rhs: Expr::UInt64(1),
        }),),
        res
    );
}

#[test]
fn parser_simple_apply_empty() {
    let res = Parser::new("abc()").parse_expr_line().unwrap();
    assert_eq!(
        Expr::Call {
            0: TVar {
                s: "abc".to_string(),
                ty: Type::Variable(Box::new(VarType {
                    id: 1,
                    ty: Type::Unknown
                }))
            },
            1: vec![],
        },
        res
    );
}

#[test]
fn parser_simple_apply_expr() {
    let res = Parser::new("abc(1u64,2u64)").parse_expr_line().unwrap();
    assert_eq!(
        Expr::Call {
            0: TVar {
                s: "abc".to_string(),
                ty: Type::Variable(Box::new(VarType {
                    id: 1,
                    ty: Type::Unknown
                }))
            },
            1: vec![Expr::UInt64(1), Expr::UInt64(2),],
        },
        res
    );
}

#[test]
fn parser_simple_expr_null_value() {
    let res = Parser::new("null").parse_expr_line().unwrap();
    assert_eq!(Expr::Null, res);
}

#[test]
fn parser_simple_assign() {
    let res = Parser::new("a = 1u64").parse_expr_line().unwrap();
    assert_eq!(
        Expr::Binary(Box::new(BinaryExpr {
            op: Operator::Assign,
            lhs: Expr::Identifier(TVar {
                s: "a".to_string(),
                ty: Type::Variable(Box::new(VarType {
                    id: 1,
                    ty: Type::Unknown
                }))
            }),
            rhs: Expr::UInt64(1)
        })),
        res
    );
}

#[test]
fn parser_err_primary() {
    let res = Parser::new(".").parse_expr_line();
    assert!(res.is_err());
    assert!(res.unwrap_err().contains("parse_primary"));
}

#[test]
fn parser_err_call_expr_list() {
    let res = Parser::new("hoge(a,,)").parse_expr_line();
    assert!(res.is_err());
    assert!(res.unwrap_err().contains("parse_expr_list"));
}

#[test]
fn parser_val_simple_expr() {
    let res = Parser::new("val hoge = 10u64").parse_expr_line().unwrap();
    assert_eq!(
        Expr::Val(
            "hoge".to_string(),
            TVar {
                s: "".to_string(),
                ty: Type::Unknown
            },
            Some(Box::new(Expr::UInt64(10)))
        ),
        res
    );
}

#[test]
fn parser_val_simple_expr_with_type() {
    let res = Parser::new("val hoge: u64 = 30u64")
        .parse_expr_line()
        .unwrap();
    assert_eq!(
        Expr::Val(
            "hoge".to_string(),
            TVar {
                s: "".to_string(),
                ty: Type::UInt64
            },
            Some(Box::new(Expr::UInt64(30)))
        ),
        res
    );
}
#[test]
fn parser_val_simple_expr_without_type1() {
    let res = Parser::new("val fuga = 20u64").parse_expr_line().unwrap();
    assert_eq!(
        Expr::Val(
            "fuga".to_string(),
            TVar {
                s: "".to_string(),
                ty: Type::Unknown
            },
            Some(Box::new(Expr::UInt64(20)))
        ),
        res
    );
}

#[test]
fn parser_val_simple_expr_without_type2() {
    let res = Parser::new("val fuga: ty = 20u64")
        .parse_expr_line()
        .unwrap();
    assert_eq!(
        Expr::Val(
            "fuga".to_string(),
            TVar {
                s: "ty".to_string(),
                ty: Type::Variable(Box::new(VarType {
                    id: 1,
                    ty: Type::Unknown
                }))
            },
            Some(Box::new(Expr::UInt64(20)))
        ),
        res
    );
}
