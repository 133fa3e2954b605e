use restq::ast::parser::from_table_at;
use restq::ast::parser::limit_at;
use restq::ast::parser::order_at;
use restq::ast::parser::page_at;
use restq::ast::parser::range_at;
use restq::ast::parser::rename_list_at;
use restq::ast::parser::select;
use restq::ast::parser::strict_ident_at;
use restq::ast::ColumnName;
use restq::ast::Direction;
use restq::ast::Expr;
use restq::ast::ExprRename;
use restq::ast::FromTable;
use restq::ast::JoinType;
use restq::ast::Limit;
use restq::ast::Order;
use restq::ast::Page;
use restq::ast::Range;
use restq::ast::TableName;
use restq::to_chars;

#[test]
fn test_expr_with_renames() {
    let input = to_chars("column1=>new_column,column2,column3");
    let (ret, _) = rename_list_at(&input, 0).expect("must be parsed");
    assert_eq!(
        ret,
        vec![
            ExprRename {
                expr: Expr::Column(ColumnName {
                    name: "column1".into()
                }),
                rename: Some("new_column".to_string())
            },
            ExprRename {
                expr: Expr::Column(ColumnName {
                    name: "column2".into()
                }),
                rename: None,
            },
            ExprRename {
                expr: Expr::Column(ColumnName {
                    name: "column3".into()
                }),
                rename: None,
            },
        ]
    )
}

#[test]
fn test_expr_with_renames2() {
    let input = to_chars("column1,column2,column3");
    let (ret, _) = rename_list_at(&input, 0).expect("must be parsed");
    assert_eq!(ret.len(), 3);
    assert_eq!(
        ret[0],
        ExprRename {
            expr: Expr::Column(ColumnName {
                name: "column1".into()
            }),
            rename: None,
        }
    );
}

#[test]
fn test_expr_list() {
    let input = to_chars("{column1,column2,column3}");
    let (ret, _) = rename_list_at(&input, 1).expect("must be parsed");
    assert_eq!(ret.len(), 3);
    assert_eq!(
        ret[2],
        ExprRename {
            expr: Expr::Column(ColumnName {
                name: "column3".into()
            }),
            rename: None,
        }
    );
}

#[test]
fn test_expr_no_rename() {
    let input = to_chars("column1");
    let ret = restq::ast::parser::expr_rename(&input).expect("must be parsed");
    assert_eq!(
        ret,
        ExprRename {
            expr: Expr::Column(ColumnName {
                name: "column1".into()
            }),
            rename: None,
        }
    )
}

#[test]
#[should_panic]
fn test_fail_strict_ident() {
    let input = to_chars("order_by");
    let _ret = strict_ident_at(&input, 0).expect("must be parsed");
}

#[test]
#[should_panic]
fn test_fail_strict_ident2() {
    let input = to_chars("group_by");
    let _ret = strict_ident_at(&input, 0).expect("must be parsed");
}

#[test]
fn test_strict_ident() {
    let input = to_chars("column1");
    let (ret, _) = strict_ident_at(&input, 0).expect("must be parsed");
    assert_eq!(ret, "column1");
}

#[test]
fn test_strict_column() {
    let input = to_chars("column1");
    let ret = restq::ast::parser::column(&input).expect("must be parsed");
    assert_eq!(
        ret,
        ColumnName {
            name: "column1".into()
        }
    );
}

#[test]
#[should_panic]
fn test_strict_column_fail() {
    let input = to_chars("group_by");
    let _ret = restq::ast::parser::column(&input).expect("must be parsed");
}

#[test]
fn test_order() {
    let input = to_chars("score.desc");
    let (ret, _) = order_at(&input, 0).expect("must be parsed");
    assert_eq!(
        ret,
        Order {
            expr: Expr::Column(ColumnName {
                name: "score".to_string()
            }),
            direction: Some(Direction::Desc)
        }
    );
}

#[test]
fn test_column_with_order() {
    let input = to_chars("score.desc");
    let ret = restq::ast::parser::column(&input).expect("must be parsed");
    assert_eq!(
        ret,
        ColumnName {
            name: "score".into()
        }
    )
}

#[test]
fn test_column_with_not_order() {
    let input = to_chars("score.something");
    let ret = restq::ast::parser::column(&input).expect("must be parsed");
    assert_eq!(
        ret,
        ColumnName {
            name: "score.something".into()
        }
    )
}

#[test]
fn test_range_using_page() {
    let input = to_chars("page=2&page_size=10");
    let (ret, _) = range_at(&input, 0).expect("must be parsed");
    assert_eq!(
        ret,
        Range::Page(Page {
            page: 2,
            page_size: 10,
        })
    )
}

#[test]
fn test_range_using_limit() {
    let input = to_chars("limit=10&offset=20");
    let (ret, _) = range_at(&input, 0).expect("must be parsed");
    assert_eq!(
        ret,
        Range::Limit(Limit {
            limit: 10,
            offset: Some(20),
        })
    )
}

#[test]
fn test_page_with_size() {
    let input = to_chars("page=2&page_size=10");
    let (ret, _) = page_at(&input, 0).expect("must be parsed");
    assert_eq!(
        ret,
        Page {
            page: 2,
            page_size: 10,
        }
    )
}

#[test]
#[should_panic]
fn test_page_invalid() {
    let input = to_chars("page=xx&page_size=10");
    let _ret = page_at(&input, 0).expect("must be parsed");
}

#[test]
#[should_panic]
fn test_page_with_size_invalid() {
    let input = to_chars("page=2&page_size=zy");
    let _ret = page_at(&input, 0).expect("must be parsed");
}

#[test]
fn test_limit() {
    let input = to_chars("limit=10");
    let (ret, _) = limit_at(&input, 0).expect("must be parsed");
    assert_eq!(
        ret,
        Limit {
            limit: 10,
            offset: None,
        }
    )
}

#[test]
fn test_limit_with_offset() {
    let input = to_chars("limit=10&offset=20");
    let (ret, _) = limit_at(&input, 0).expect("must be parsed");
    assert_eq!(
        ret,
        Limit {
            limit: 10,
            offset: Some(20),
        }
    )
}

#[test]
fn test_from_right_join() {
    let input = to_chars("product->users");
    let (ret, _) = from_table_at(&input, 0).expect("must be parsed");
    assert_eq!(
        ret,
        FromTable {
            from: TableName {
                name: "product".into()
            },
            join: Some((
                JoinType::RightJoin,
                Box::new(FromTable {
                    from: TableName {
                        name: "users".into()
                    },
                    join: None,
                }),
            ),),
        }
    );
}

#[test]
fn test_from_left_join() {
    let input = to_chars("product<-users");
    let (ret, _) = from_table_at(&input, 0).expect("must be parsed");
    assert_eq!(ret.join.as_ref().map(|j| j.0), Some(JoinType::LeftJoin));
}

#[test]
fn test_from_inner_join() {
    let input = to_chars("product-><-users");
    let (ret, _) = from_table_at(&input, 0).expect("must be parsed");
    assert_eq!(ret.join.as_ref().map(|j| j.0), Some(JoinType::InnerJoin));
}

#[test]
fn test_from_full_join() {
    let input = to_chars("product<-->users");
    let (ret, _) = from_table_at(&input, 0).expect("must be parsed");
    assert_eq!(ret.join.as_ref().map(|j| j.0), Some(JoinType::FullJoin));
}

#[test]
fn test_simple_select_to_sql() {
    let input = to_chars("person{name,age,class}");
    let ret = select(&input).expect("must be parsed");
    let sel = ret.into_sql_select(None).expect("must not fail");
    assert_eq!(sel.to_sql_string(), "SELECT name, age, class FROM person");
}

#[test]
fn test_table_query_with_range_only() {
    let input = to_chars("person&page=1&page_size=20");
    let ret = select(&input).expect("must be parsed");
    let query = ret.into_sql_query(None).expect("must not fail");
    assert_eq!(query.to_sql_string(), "SELECT * FROM person LIMIT 20 OFFSET 0");
}

#[test]
fn test_complex_query() {
    let input = to_chars("person{name,age,class}?(age=gt.42&student=eq.true)|(gender=eq.'M'&is_active=true)&group_by=sum(age),grade,gender&having=min(age)=gte.42&order_by=age.desc,height.asc&page=2&page_size=10");
    let ret = select(&input).expect("must be parsed");
    let query = ret.into_sql_query(None).expect("must not fail");
    assert_eq!(
        query.to_sql_string(),
        "SELECT name, age, class FROM person \
         WHERE \
         (age > 42 AND student = true) OR (gender = 'M' AND is_active = true) \
         GROUP BY sum(age), grade, gender \
         HAVING min(age) >= 42 ORDER BY age DESC, height ASC \
         LIMIT 10 OFFSET 10"
    );
}

#[test]
fn separator_operators_keep_the_dot() {
    for (text, token) in [
        ("age=gt.42", "gt"),
        ("age=lte.42", "lte"),
        ("name=like.foo", "like"),
        ("x=in.[1,2]", "in"),
    ] {
        let parsed = restq::ast::parser::filter_expr(&to_chars(text)).expect("must parse");
        let rendered = parsed.to_text();
        assert!(rendered.contains(&format!("={}.", token)));
        assert_eq!(rendered, text);
    }
}
