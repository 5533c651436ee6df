use easybite::astnode::ASTNode;

fn place(line: usize, column: usize, node: ASTNode<u8>) -> ASTNode<u8> {
    ASTNode::from_token(line, column, node)
}

#[test]
fn node_takes_the_token_position() {
    match place(4, 9, ASTNode::Identifier { name: "x".to_string(), line: 1, column: 1 }) {
        ASTNode::Identifier { name, line, column } => {
            assert_eq!(name, "x");
            assert_eq!((line, column), (4, 9));
        }
        other => panic!("unexpected {:?}", other),
    }
}

#[test]
fn payload_stays_with_the_node() {
    let left = Box::new(ASTNode::NumberLiteral { value: 2.0f64.to_bits(), line: 0, column: 0 });
    let right = Box::new(ASTNode::True { line: 0, column: 0 });
    match place(7, 3, ASTNode::BinaryOperation { left, operator: 5, right, line: 2, column: 2 }) {
        ASTNode::BinaryOperation { left, operator, right, line, column } => {
            assert_eq!(operator, 5);
            assert_eq!((line, column), (7, 3));
            assert!(matches!(*left, ASTNode::NumberLiteral { value, .. } if value == 2.0f64.to_bits()));
            assert!(matches!(*right, ASTNode::True { .. }));
        }
        other => panic!("unexpected {:?}", other),
    }
}

#[test]
fn parent_constructor_call_is_moved_by_the_token() {
    match place(10, 4, ASTNode::ParentConstructorCall { args: vec![], line: 2, column: 5 }) {
        ASTNode::ParentConstructorCall { args, line, column } => {
            assert!(args.is_empty());
            assert_eq!((line, column), (12, 9));
        }
        other => panic!("unexpected {:?}", other),
    }
}

#[test]
fn end_of_input_stays() {
    assert!(matches!(place(3, 3, ASTNode::EOF), ASTNode::EOF));
}
