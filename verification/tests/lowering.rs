use restq::ast::ddl::alter_table;
use restq::ast::ddl::DefaultValue;
use restq::ast::Function;
use restq::ast::ddl::ColumnAttribute;
use restq::ast::ddl::ColumnDef;
use restq::ast::ddl::DataTypeDef;
use restq::ast::ddl::Foreign;
use restq::ast::ddl::TableDef;
use restq::ast::dml::bulk_delete;
use restq::ast::dml::bulk_update;
use restq::ast::dml::delete;
use restq::ast::dml::insert;
use restq::ast::dml::update;
use restq::ast::dml::BulkDelete;
use restq::ast::dml::BulkUpdate;
use restq::ast::dml::Delete;
use restq::ast::dml::Insert;
use restq::ast::dml::Source;
use restq::ast::dml::Update;
use restq::ast::BinaryOperation;
use restq::ast::ColumnName;
use restq::ast::Expr;
use restq::ast::Operator;
use restq::ast::TableLookup;
use restq::ast::TableName;
use restq::ast::Value;
use restq::parse_statement;
use restq::to_chars;
use restq::DataType;

fn users_table() -> TableDef {
    TableDef {
        table: TableName {
            name: "users".into(),
        },
        columns: vec![ColumnDef {
            column: ColumnName {
                name: "user_id".into(),
            },
            attributes: Some(vec![ColumnAttribute::Primary]),
            data_type_def: DataTypeDef {
                data_type: DataType::U64,
                is_optional: false,
                default: None,
            },
            foreign: None,
        }],
    }
}

#[test]
fn test_parse_create_statement() {
    let statement = parse_statement(
        "PUT /product{*product_id:s32,@name:text,description:text,updated:utc,created_by(users):u32,@is_active:bool}",
    )
    .expect("must not fail");
    let mut table_lookup = TableLookup::new();
    table_lookup.add_table(users_table());
    assert_eq!(
        statement
            .into_sql_statement(Some(&table_lookup))
            .expect("must not fail")
            .to_sql_string(),
        "CREATE TABLE IF NOT EXISTS product (product_id SERIAL PRIMARY KEY NOT NULL, name text NOT NULL, description text NOT NULL, updated timestamp NOT NULL, created_by int NOT NULL REFERENCES users (user_id), is_active boolean NOT NULL)"
    );
}

#[test]
fn test_parse_select_statement() {
    let statement = parse_statement(
        "GET /person-><-users{name,age,class}?(age=gt.42&student=eq.true)|(gender=eq.`M`&is_active=true)&group_by=sum(age),grade,gender&having=min(age)=gte.42&order_by=age.desc,height.asc&page=2&page_size=10",
    )
    .expect("must not fail");
    let person_table = TableDef {
        table: TableName {
            name: "person".into(),
        },
        columns: vec![ColumnDef {
            column: ColumnName { name: "id".into() },
            attributes: Some(vec![ColumnAttribute::Primary]),
            data_type_def: DataTypeDef {
                data_type: DataType::S64,
                is_optional: false,
                default: None,
            },
            foreign: None,
        }],
    };
    let users_with_person = TableDef {
        table: TableName {
            name: "users".into(),
        },
        columns: vec![ColumnDef {
            column: ColumnName {
                name: "person_id".into(),
            },
            attributes: None,
            data_type_def: DataTypeDef {
                data_type: DataType::U64,
                is_optional: false,
                default: None,
            },
            foreign: Some(Foreign {
                table: TableName {
                    name: "person".into(),
                },
                column: None,
            }),
        }],
    };
    let mut table_lookup = TableLookup::new();
    table_lookup.add_table(person_table);
    table_lookup.add_table(users_with_person);
    assert_eq!(
        statement
            .into_sql_statement(Some(&table_lookup))
            .unwrap()
            .to_sql_string(),
        "SELECT name, age, class FROM person JOIN users ON users.person_id = person.id WHERE (age > 42 AND student = true) OR (gender = 'M' AND is_active = true) GROUP BY sum(age), grade, gender HAVING min(age) >= 42 ORDER BY age DESC, height ASC LIMIT 10 OFFSET 10"
    );
}

#[test]
fn multiple_left_joins() {
    let input = "bazaar.review<-bazaar.product_review<-bazaar.product{bazaar.review.review_id}?bazaar.product.product_id=eq.'3c03c6f0-7d91-4570-a882-0ef44c427b90'&page=1&page_size=40";
    let input_chars = to_chars(input);
    let ret = restq::ast::parser::select(&input_chars).expect("must be parsed");
    let mut table_lookup = TableLookup::new();
    let uuid_col = |name: &str, primary: bool, foreign: Option<Foreign>| ColumnDef {
        column: ColumnName { name: name.into() },
        attributes: if primary {
            Some(vec![ColumnAttribute::Primary])
        } else {
            None
        },
        data_type_def: DataTypeDef {
            data_type: DataType::Uuid,
            is_optional: !primary,
            default: None,
        },
        foreign,
    };
    let product = TableDef {
        table: TableName {
            name: "bazaar.product".into(),
        },
        columns: vec![uuid_col("product_id", true, None)],
    };
    let product_review = TableDef {
        table: TableName {
            name: "bazaar.product_review".into(),
        },
        columns: vec![
            uuid_col(
                "product_id",
                true,
                Some(Foreign {
                    table: TableName {
                        name: "bazaar.product".into(),
                    },
                    column: Some(ColumnName {
                        name: "product_id".into(),
                    }),
                }),
            ),
            uuid_col(
                "review_id",
                true,
                Some(Foreign {
                    table: TableName {
                        name: "bazaar.review".into(),
                    },
                    column: Some(ColumnName {
                        name: "review_id".into(),
                    }),
                }),
            ),
        ],
    };
    let review = TableDef {
        table: TableName {
            name: "bazaar.review".into(),
        },
        columns: vec![uuid_col("review_id", true, None)],
    };
    table_lookup.add_table(product);
    table_lookup.add_table(product_review);
    table_lookup.add_table(review);
    let sql = ret
        .into_sql_statement(Some(&table_lookup))
        .expect("must not error");
    assert_eq!(input, ret.to_text());
    assert_eq!(
        "SELECT bazaar.review.review_id FROM bazaar.review LEFT JOIN bazaar.product_review ON bazaar.product_review.review_id = bazaar.review.review_id LEFT JOIN bazaar.product ON bazaar.product_review.product_id = bazaar.product.product_id WHERE bazaar.product.product_id = '3c03c6f0-7d91-4570-a882-0ef44c427b90' LIMIT 40 OFFSET 0",
        sql.to_sql_string()
    );
}

#[test]
fn test_insert() {
    let input = to_chars(
        "product{product_id,created_by,created,is_active}?returning=product_id,name\n1,1,2019-10-10T10:10:10.122,true\n",
    );
    let ret = insert(&input).expect("must be parsed");
    let statement = ret.into_sql_statement(None).expect("must not fail");
    assert_eq!(
        statement.to_sql_string(),
        "INSERT INTO product (product_id, created_by, created, is_active) VALUES "
    );
    assert_eq!(
        ret,
        Insert {
            into: TableName {
                name: "product".into()
            },
            columns: vec![
                ColumnName {
                    name: "product_id".into()
                },
                ColumnName {
                    name: "created_by".into()
                },
                ColumnName {
                    name: "created".into()
                },
                ColumnName {
                    name: "is_active".into()
                },
            ],
            source: Source::Values(vec![]),
            returning: Some(vec![
                ColumnName {
                    name: "product_id".into()
                },
                ColumnName {
                    name: "name".into()
                },
            ])
        }
    );
}

#[test]
fn test_update() {
    let input = to_chars(
        r#"product{description="I'm the new description now",is_active=false}?product_id=1"#,
    );
    let ret = update(&input).expect("must be parsed");
    let statement = ret.into_sql_statement().unwrap();
    assert_eq!(
        statement.to_sql_string(),
        r#"UPDATE product SET description = 'I''m the new description now', is_active = false WHERE product_id = 1"#
    );
    assert_eq!(
        ret,
        Update {
            table: TableName {
                name: "product".into()
            },
            columns: vec![
                ColumnName {
                    name: "description".into(),
                },
                ColumnName {
                    name: "is_active".into()
                },
            ],
            values: vec![
                Value::String("I'm the new description now".into()),
                Value::Bool(false),
            ],
            condition: Some(Expr::BinaryOperation(Box::new(BinaryOperation {
                left: Expr::Column(ColumnName {
                    name: "product_id".into()
                },),
                operator: Operator::Eq,
                right: Expr::Value(Value::Number("1".to_string()))
            })))
        }
    )
}

#[test]
fn test_delete() {
    let input = to_chars(r#"product?product_id=1"#);
    let ret = delete(&input).expect("must be parsed");
    let statement = ret.into_sql_statement().unwrap();
    assert_eq!(
        statement.to_sql_string(),
        "DELETE FROM product WHERE product_id = 1"
    );
    assert_eq!(
        ret,
        Delete {
            from: TableName {
                name: "product".into()
            },
            condition: Some(Expr::BinaryOperation(Box::new(BinaryOperation {
                left: Expr::Column(ColumnName {
                    name: "product_id".into()
                },),
                operator: Operator::Eq,
                right: Expr::Value(Value::Number("1".to_string()))
            })))
        }
    );
}

#[test]
fn test_bulk_delete() {
    let input = to_chars("product{name,is_active}");
    let ret = bulk_delete(&input).expect("must be parsed");
    assert_eq!(
        ret,
        BulkDelete {
            from: TableName {
                name: "product".into()
            },
            columns: vec![
                ColumnName {
                    name: "name".into()
                },
                ColumnName {
                    name: "is_active".into()
                }
            ],
            values: vec![]
        }
    );
}

#[test]
fn test_bulk_update() {
    let input = to_chars("product{name,is_active}");
    let ret = bulk_update(&input).expect("must be parsed");
    assert_eq!(
        ret,
        BulkUpdate {
            table: TableName {
                name: "product".into()
            },
            columns: vec![
                ColumnName {
                    name: "name".into()
                },
                ColumnName {
                    name: "is_active".into()
                }
            ],
            values: vec![]
        }
    );
}

#[test]
fn parse_alter_operation_simple() {
    let input = to_chars("product{-description,+discount:f32?(0.1)}");
    let ret = alter_table(&input).expect("must be parsed");
    let statements = ret.into_sql_statements(None).unwrap();
    assert_eq!(statements.len(), 2);
    assert_eq!(
        statements[0].to_sql_string(),
        "ALTER TABLE product DROP COLUMN IF EXISTS description CASCADE"
    );
    assert_eq!(
        statements[1].to_sql_string(),
        "ALTER TABLE product ADD COLUMN discount float DEFAULT 0.1"
    );
}

#[test]
fn parse_alter_operation() {
    let input = to_chars("product{id=&*product_id:u32,-description,+discount:f32?(0.0)}");
    let ret = alter_table(&input).expect("must be parsed");
    assert_eq!(ret.table.name, "product");
    assert_eq!(ret.alter_operations.len(), 3);
}

#[test]
fn drop_table_statement_via_dispatcher() {
    let statement = parse_statement("DELETE /-product").expect("must be parsed");
    assert_eq!(
        statement.into_sql_statement(None).unwrap().to_sql_string(),
        "DROP TABLE IF EXISTS product CASCADE"
    );
}

#[test]
fn delete_statement_via_dispatcher() {
    let statement = parse_statement("DELETE /product?product_id=1").expect("must be parsed");
    assert_eq!(
        statement.into_sql_statement(None).unwrap().to_sql_string(),
        "DELETE FROM product WHERE product_id = 1"
    );
}

#[test]
fn bulk_update_emits_one_update_per_row_with_changed_columns() {
    let bulk = BulkUpdate {
        table: TableName {
            name: "product".into(),
        },
        columns: vec![
            ColumnName {
                name: "product_id".into(),
            },
            ColumnName {
                name: "name".into(),
            },
        ],
        values: vec![
            vec![
                Value::Number("1".into()),
                Value::String("go pro".into()),
                Value::Number("1".into()),
                Value::String("go pro hero4".into()),
            ],
            vec![
                Value::Number("2".into()),
                Value::String("shovel".into()),
                Value::Number("2".into()),
                Value::String("slightly used shovel".into()),
            ],
        ],
    };
    let product = TableDef {
        table: TableName {
            name: "product".into(),
        },
        columns: vec![
            ColumnDef {
                column: ColumnName {
                    name: "product_id".into(),
                },
                attributes: Some(vec![ColumnAttribute::Primary]),
                data_type_def: DataTypeDef {
                    data_type: DataType::S32,
                    is_optional: false,
                    default: None,
                },
                foreign: None,
            },
            ColumnDef {
                column: ColumnName {
                    name: "name".into(),
                },
                attributes: None,
                data_type_def: DataTypeDef {
                    data_type: DataType::Text,
                    is_optional: false,
                    default: None,
                },
                foreign: None,
            },
        ],
    };
    let updates = bulk.into_updates(&product).expect("must convert");
    assert_eq!(updates.len(), 2);
    assert_eq!(
        updates[0].columns,
        vec![ColumnName {
            name: "name".into()
        }]
    );
    assert_eq!(
        updates[0].values,
        vec![Value::String("go pro hero4".into())]
    );
    let mut lookup = TableLookup::new();
    lookup.add_table(product);
    let statements = bulk.into_sql_statements(Some(&lookup)).expect("must lower");
    assert_eq!(statements.len(), 2);
    assert_eq!(
        statements[0].to_sql_string(),
        "UPDATE product SET name = 'go pro hero4' WHERE product_id = 1"
    );
}

#[test]
fn bulk_delete_single_statement_uses_in_filter() {
    let bulk = BulkDelete {
        from: TableName {
            name: "product".into(),
        },
        columns: vec![ColumnName {
            name: "product_id".into(),
        }],
        values: vec![
            vec![Value::Number("1".into())],
            vec![Value::Number("2".into())],
        ],
    };
    let product = TableDef {
        table: TableName {
            name: "product".into(),
        },
        columns: vec![ColumnDef {
            column: ColumnName {
                name: "product_id".into(),
            },
            attributes: Some(vec![ColumnAttribute::Primary]),
            data_type_def: DataTypeDef {
                data_type: DataType::S32,
                is_optional: false,
                default: None,
            },
            foreign: None,
        }],
    };
    let mut lookup = TableLookup::new();
    lookup.add_table(product);
    let single = bulk
        .into_single_sql_statement(Some(&lookup))
        .expect("must lower");
    assert_eq!(
        single.to_sql_string(),
        "DELETE FROM product WHERE product_id IN (1, 2)"
    );
    let many = bulk
        .into_multiple_sql_statements(Some(&lookup))
        .expect("must lower");
    assert_eq!(many.len(), 2);
    assert_eq!(
        many[0].to_sql_string(),
        "DELETE FROM product WHERE product_id = 1"
    );
}

#[test]
fn join_without_lookup_is_refused() {
    let statement = parse_statement("GET /person-><-users").expect("must be parsed");
    let err = statement.into_sql_statement(None).err().expect("must fail");
    assert_eq!(err.to_text(), "NoSuppliedTableLookup");
}

#[test]
fn join_with_unknown_table_is_reported() {
    let statement = parse_statement("GET /person-><-users").expect("must be parsed");
    let lookup = TableLookup::new();
    let err = statement
        .into_sql_statement(Some(&lookup))
        .err()
        .expect("must fail");
    assert_eq!(err.to_text(), r#"TableNotFound("person")"#);
}

#[test]
fn test_complex_query_with_join() {
    let input = to_chars("person->users{name,age,class}?(age=gt.42&student=eq.true)|(gender=eq.'M'&is_active=true)&group_by=sum(age),grade,gender&having=min(age)=gte.42&order_by=age.desc,height.asc&page=2&page_size=10");
    let ret = restq::ast::parser::select(&input).expect("must be parsed");
    let person_table = TableDef {
        table: TableName {
            name: "person".into(),
        },
        columns: vec![ColumnDef {
            column: ColumnName { name: "id".into() },
            attributes: Some(vec![ColumnAttribute::Primary]),
            data_type_def: DataTypeDef {
                data_type: DataType::S64,
                is_optional: false,
                default: None,
            },
            foreign: None,
        }],
    };
    let users_table = TableDef {
        table: TableName {
            name: "users".into(),
        },
        columns: vec![ColumnDef {
            column: ColumnName {
                name: "person_id".into(),
            },
            attributes: None,
            data_type_def: DataTypeDef {
                data_type: DataType::U64,
                is_optional: false,
                default: None,
            },
            foreign: Some(Foreign {
                table: TableName {
                    name: "person".into(),
                },
                column: None,
            }),
        }],
    };
    let mut table_lookup = TableLookup::new();
    table_lookup.add_table(person_table);
    table_lookup.add_table(users_table);
    let query = ret
        .into_sql_query(Some(&table_lookup))
        .expect("must not fail");
    assert_eq!(
        query.to_sql_string(),
        "SELECT name, age, class FROM person \
         RIGHT JOIN users ON users.person_id = person.id \
         WHERE \
         (age > 42 AND student = true) OR (gender = 'M' AND is_active = true) \
         GROUP BY sum(age), grade, gender \
         HAVING min(age) >= 42 ORDER BY age DESC, height ASC \
         LIMIT 10 OFFSET 10"
    );
}

#[test]
fn alter_column_lowering_is_not_implemented() {
    let input = to_chars("product{id=*product_id:u32}");
    let ret = alter_table(&input).expect("must be parsed");
    let err = ret.into_sql_statements(None).err().expect("must fail");
    assert!(err.to_text().contains("NotImplemented"));
}

#[test]
fn alter_with_several_operations_is_more_than_one_statement() {
    let statement = parse_statement("PATCH /product{-description,+discount:f32?(0.1)}")
        .expect("must be parsed");
    let err = statement.into_sql_statement(None).err().expect("must fail");
    assert_eq!(err.to_text(), "MoreThanOneStatement");
}

#[test]
fn join_ands_every_foreign_key_pair() {
    let statement = parse_statement("GET /person-><-orders{name}").expect("must be parsed");
    let person_table = TableDef {
        table: TableName {
            name: "person".into(),
        },
        columns: vec![ColumnDef {
            column: ColumnName { name: "id".into() },
            attributes: Some(vec![ColumnAttribute::Primary]),
            data_type_def: DataTypeDef {
                data_type: DataType::S64,
                is_optional: false,
                default: None,
            },
            foreign: None,
        }],
    };
    let fk_col = |name: &str| ColumnDef {
        column: ColumnName { name: name.into() },
        attributes: None,
        data_type_def: DataTypeDef {
            data_type: DataType::U64,
            is_optional: false,
            default: None,
        },
        foreign: Some(Foreign {
            table: TableName {
                name: "person".into(),
            },
            column: None,
        }),
    };
    let orders_table = TableDef {
        table: TableName {
            name: "orders".into(),
        },
        columns: vec![fk_col("owner_id"), fk_col("payer_id"), fk_col("courier_id")],
    };
    let mut table_lookup = TableLookup::new();
    table_lookup.add_table(person_table);
    table_lookup.add_table(orders_table);
    assert_eq!(
        statement
            .into_sql_statement(Some(&table_lookup))
            .expect("must lower")
            .to_sql_string(),
        "SELECT name FROM person JOIN orders ON orders.owner_id = person.id AND orders.payer_id = person.id AND orders.courier_id = person.id"
    );
}

#[test]
fn derive_insert_fills_every_column() {
    let table = TableDef {
        table: TableName {
            name: "pair".into(),
        },
        columns: vec![
            ColumnDef {
                column: ColumnName { name: "a".into() },
                attributes: Some(vec![ColumnAttribute::Primary]),
                data_type_def: DataTypeDef {
                    data_type: DataType::S64,
                    is_optional: false,
                    default: None,
                },
                foreign: None,
            },
            ColumnDef {
                column: ColumnName { name: "b".into() },
                attributes: None,
                data_type_def: DataTypeDef {
                    data_type: DataType::Text,
                    is_optional: false,
                    default: None,
                },
                foreign: None,
            },
        ],
    };
    let ins = table.derive_insert();
    assert_eq!(ins.into.name, "pair");
    assert_eq!(
        ins.columns.iter().map(|c| c.name.clone()).collect::<Vec<_>>(),
        vec!["a".to_string(), "b".to_string()]
    );
    match &ins.source {
        Source::Parameterized(ps) => assert_eq!(ps, &vec![1usize, 2usize]),
        other => panic!("unexpected source {:?}", other),
    }
    let ret = ins.returning.expect("returns all columns");
    assert_eq!(ret.len(), 2);
}

#[test]
fn default_value_uses_supplied_instant() {
    let col = ColumnDef {
        column: ColumnName {
            name: "created".into(),
        },
        attributes: None,
        data_type_def: DataTypeDef {
            data_type: DataType::Utc,
            is_optional: false,
            default: Some(DefaultValue::Function(Function {
                name: "now".into(),
                params: vec![],
            })),
        },
        foreign: None,
    };
    assert_eq!(col.default_value(1234), restq::DataValue::Utc(1234));
    let plain = ColumnDef {
        column: ColumnName { name: "n".into() },
        attributes: None,
        data_type_def: DataTypeDef {
            data_type: DataType::U8,
            is_optional: false,
            default: Some(DefaultValue::DataValue(restq::DataValue::U8(3))),
        },
        foreign: None,
    };
    assert_eq!(plain.default_value(0), restq::DataValue::U8(3));
}
