//! The nodes of the syntax tree that the parser builds, and how a node takes
//! the position of the token it was read from.

use vstd::prelude::*;

verus! {

/// A node of the syntax tree, with the line and column where it stands.
/// `K` is the kind of token that operators and access modifiers are; numbers
/// are held as the bit patterns of their binary64 values.
#[derive(Debug)]
#[allow(inconsistent_fields)]
pub enum ASTNode<K> {
    Declaration {
        names: Vec<Box<ASTNode<K>>>,
        line: usize,
        column: usize,
    },
    SetStatement {
        target: Box<ASTNode<K>>,
        value: Box<ASTNode<K>>,
        line: usize,
        column: usize,
    },
    AssignStatement {
        target: Box<ASTNode<K>>,
        value: Box<ASTNode<K>>,
        line: usize,
        column: usize,
    },
    IfStatement {
        condition: Box<ASTNode<K>>,
        then_body: Vec<ASTNode<K>>,
        elseif_clauses: Vec<(Box<ASTNode<K>>, Vec<ASTNode<K>>)>,
        else_body: Option<Vec<ASTNode<K>>>,
        line: usize,
        column: usize,
    },
    InputStatement {
        target: Box<ASTNode<K>>,
        prompt: Box<ASTNode<K>>,
        line: usize,
        column: usize,
    },
    ForStatement {
        variable: String,
        start: Box<ASTNode<K>>,
        end: Box<ASTNode<K>>,
        step: Option<Box<ASTNode<K>>>,
        body: Vec<ASTNode<K>>,
        line: usize,
        column: usize,
    },
    ForeachStatement {
        variables: Vec<String>,
        iterable: Box<ASTNode<K>>,
        body: Vec<ASTNode<K>>,
        line: usize,
        column: usize,
    },
    GenerateStatement {
        variable: String,
        start: Box<ASTNode<K>>,
        end: Box<ASTNode<K>>,
        by: Option<Box<ASTNode<K>>>,
        body: Vec<ASTNode<K>>,
        line: usize,
        column: usize,
    },
    ShowStatement {
        expr: Box<ASTNode<K>>,
        line: usize,
        column: usize,
    },
    RepeatStatement {
        condition: Box<ASTNode<K>>,
        body: Vec<ASTNode<K>>,
        line: usize,
        column: usize,
    },
    RepeatTimeStatement {
        times: Box<ASTNode<K>>,
        body: Vec<ASTNode<K>>,
        line: usize,
        column: usize,
    },
    ShowLnStatement {
        line: usize,
        column: usize,
    },
    IterateStatement {
        variable: String,
        iterable: Box<ASTNode<K>>,
        body: Vec<ASTNode<K>>,
        line: usize,
        column: usize,
    },
    ChooseStatement {
        expr: Box<ASTNode<K>>,
        when_clauses: Vec<(Box<ASTNode<K>>, Vec<ASTNode<K>>)>,
        default: Option<Vec<ASTNode<K>>>,
        line: usize,
        column: usize,
    },
    FunctionDecl {
        name: String,
        params: Vec<Box<ASTNode<K>>>,
        body: Vec<ASTNode<K>>,
        line: usize,
        column: usize,
    },
    FunctionCall {
        name: String,
        args: Vec<Box<ASTNode<K>>>,
        line: usize,
        column: usize,
    },
    ReturnStatement {
        value: Option<Box<ASTNode<K>>>,
        line: usize,
        column: usize,
    },
    ClassDecl {
        name: String,
        inherit: Option<String>,
        body: Vec<ASTNode<K>>,
        line: usize,
        column: usize,
    },
    MethodCall {
        object: Box<ASTNode<K>>,
        method: String,
        args: Vec<Box<ASTNode<K>>>,
        line: usize,
        column: usize,
    },
    ImportStatement {
        modules: Vec<String>,
        line: usize,
        column: usize,
    },
    FromImportStatement {
        module: String,
        imported: Vec<String>,
        line: usize,
        column: usize,
    },
    RaiseException {
        error: Option<Box<ASTNode<K>>>,
        line: usize,
        column: usize,
    },
    TryCapture {
        try_body: Vec<ASTNode<K>>,
        capture_var: String,
        capture_body: Vec<ASTNode<K>>,
        line: usize,
        column: usize,
    },
    SkipStatement {
        line: usize,
        column: usize,
    },
    ExitStatement {
        line: usize,
        column: usize,
    },
    AwaitStatement {
        expr: Box<ASTNode<K>>,
        line: usize,
        column: usize,
    },
    FieldAccess {
        object: Box<ASTNode<K>>,
        field: Box<ASTNode<K>>,
        line: usize,
        column: usize,
    },
    ParentMethodAccess {
        method: String,
        args: Vec<Box<ASTNode<K>>>,
        line: usize,
        column: usize,
    },
    ParentAccess {
        field: Box<ASTNode<K>>,
        line: usize,
        column: usize,
    },
    Callback {
        name: String,
        params: Vec<Box<ASTNode<K>>>,
        line: usize,
        column: usize,
    },
    Ternary {
        condition: Box<ASTNode<K>>,
        then_expr: Box<ASTNode<K>>,
        else_expr: Box<ASTNode<K>>,
        line: usize,
        column: usize,
    },
    BinaryOperation {
        left: Box<ASTNode<K>>,
        operator: K,
        right: Box<ASTNode<K>>,
        line: usize,
        column: usize,
    },
    UnaryOperation {
        operator: K,
        expr: Box<ASTNode<K>>,
        line: usize,
        column: usize,
    },
    ArrayElement {
        elements: Vec<Box<ASTNode<K>>>,
        line: usize,
        column: usize,
    },
    ArrayAccess {
        name: String,
        indices: Vec<Box<ASTNode<K>>>,
        line: usize,
        column: usize,
    },
    Dictionary {
        pairs: Vec<(Box<ASTNode<K>>, Box<ASTNode<K>>)>,
        line: usize,
        column: usize,
    },
    DictionaryAccess {
        name: String,
        keys: Vec<Box<ASTNode<K>>>,
        line: usize,
        column: usize,
    },
    ClassInstantiation {
        class_expr: Box<ASTNode<K>>,
        args: Vec<Box<ASTNode<K>>>,
        line: usize,
        column: usize,
    },
    ByteArray {
        args: Vec<Option<Box<ASTNode<K>>>>,
        line: usize,
        column: usize,
    },
    NumberLiteral {
        value: u64,
        line: usize,
        column: usize,
    },
    StringLiteral {
        value: String,
        line: usize,
        column: usize,
    },
    HexLiteral {
        value: String,
        line: usize,
        column: usize,
    },
    BytesLiteral {
        value: String,
        line: usize,
        column: usize,
    },
    ScientificLiteral {
        value: u64,
        line: usize,
        column: usize,
    },
    Identifier {
        name: String,
        line: usize,
        column: usize,
    },
    True {
        line: usize,
        column: usize,
    },
    False {
        line: usize,
        column: usize,
    },
    Null {
        line: usize,
        column: usize,
    },
    FieldDecl {
        modifier: Option<K>,
        decl: Box<ASTNode<K>>,
        line: usize,
        column: usize,
    },
    MethodDecl {
        modifier: Option<K>,
        name: String,
        params: Vec<Box<ASTNode<K>>>,
        body: Vec<ASTNode<K>>,
        line: usize,
        column: usize,
    },
    ConstructorDecl {
        modifier: Option<K>,
        params: Vec<Box<ASTNode<K>>>,
        body: Vec<ASTNode<K>>,
        line: usize,
        column: usize,
    },
    ParentConstructorCall {
        args: Vec<Box<ASTNode<K>>>,
        line: usize,
        column: usize,
    },
    This {
        line: usize,
        column: usize,
    },
    Block {
        statements: Vec<ASTNode<K>>,
        line: usize,
        column: usize,
    },
    EOF,
}

/// The line and column of a node; the end of the input has none.
pub open spec fn position<K>(n: ASTNode<K>) -> Option<(usize, usize)> {
    match n {
        ASTNode::Declaration { line, column, .. } => Some((line, column)),
        ASTNode::SetStatement { line, column, .. } => Some((line, column)),
        ASTNode::AssignStatement { line, column, .. } => Some((line, column)),
        ASTNode::IfStatement { line, column, .. } => Some((line, column)),
        ASTNode::InputStatement { line, column, .. } => Some((line, column)),
        ASTNode::ForStatement { line, column, .. } => Some((line, column)),
        ASTNode::ForeachStatement { line, column, .. } => Some((line, column)),
        ASTNode::GenerateStatement { line, column, .. } => Some((line, column)),
        ASTNode::ShowStatement { line, column, .. } => Some((line, column)),
        ASTNode::RepeatStatement { line, column, .. } => Some((line, column)),
        ASTNode::RepeatTimeStatement { line, column, .. } => Some((line, column)),
        ASTNode::ShowLnStatement { line, column, .. } => Some((line, column)),
        ASTNode::IterateStatement { line, column, .. } => Some((line, column)),
        ASTNode::ChooseStatement { line, column, .. } => Some((line, column)),
        ASTNode::FunctionDecl { line, column, .. } => Some((line, column)),
        ASTNode::FunctionCall { line, column, .. } => Some((line, column)),
        ASTNode::ReturnStatement { line, column, .. } => Some((line, column)),
        ASTNode::ClassDecl { line, column, .. } => Some((line, column)),
        ASTNode::MethodCall { line, column, .. } => Some((line, column)),
        ASTNode::ImportStatement { line, column, .. } => Some((line, column)),
        ASTNode::FromImportStatement { line, column, .. } => Some((line, column)),
        ASTNode::RaiseException { line, column, .. } => Some((line, column)),
        ASTNode::TryCapture { line, column, .. } => Some((line, column)),
        ASTNode::SkipStatement { line, column, .. } => Some((line, column)),
        ASTNode::ExitStatement { line, column, .. } => Some((line, column)),
        ASTNode::AwaitStatement { line, column, .. } => Some((line, column)),
        ASTNode::FieldAccess { line, column, .. } => Some((line, column)),
        ASTNode::ParentMethodAccess { line, column, .. } => Some((line, column)),
        ASTNode::ParentAccess { line, column, .. } => Some((line, column)),
        ASTNode::Callback { line, column, .. } => Some((line, column)),
        ASTNode::Ternary { line, column, .. } => Some((line, column)),
        ASTNode::BinaryOperation { line, column, .. } => Some((line, column)),
        ASTNode::UnaryOperation { line, column, .. } => Some((line, column)),
        ASTNode::ArrayElement { line, column, .. } => Some((line, column)),
        ASTNode::ArrayAccess { line, column, .. } => Some((line, column)),
        ASTNode::Dictionary { line, column, .. } => Some((line, column)),
        ASTNode::DictionaryAccess { line, column, .. } => Some((line, column)),
        ASTNode::ClassInstantiation { line, column, .. } => Some((line, column)),
        ASTNode::ByteArray { line, column, .. } => Some((line, column)),
        ASTNode::NumberLiteral { line, column, .. } => Some((line, column)),
        ASTNode::StringLiteral { line, column, .. } => Some((line, column)),
        ASTNode::HexLiteral { line, column, .. } => Some((line, column)),
        ASTNode::BytesLiteral { line, column, .. } => Some((line, column)),
        ASTNode::ScientificLiteral { line, column, .. } => Some((line, column)),
        ASTNode::Identifier { line, column, .. } => Some((line, column)),
        ASTNode::True { line, column, .. } => Some((line, column)),
        ASTNode::False { line, column, .. } => Some((line, column)),
        ASTNode::Null { line, column, .. } => Some((line, column)),
        ASTNode::FieldDecl { line, column, .. } => Some((line, column)),
        ASTNode::MethodDecl { line, column, .. } => Some((line, column)),
        ASTNode::ConstructorDecl { line, column, .. } => Some((line, column)),
        ASTNode::ParentConstructorCall { line, column, .. } => Some((line, column)),
        ASTNode::This { line, column, .. } => Some((line, column)),
        ASTNode::Block { line, column, .. } => Some((line, column)),
        ASTNode::EOF => None,
    }
}

/// A node without its position: the same variant and payload, at line 0,
/// column 0.
pub open spec fn unplaced<K>(n: ASTNode<K>) -> ASTNode<K> {
    match n {
        ASTNode::Declaration { names, .. } => ASTNode::Declaration { names, line: 0, column: 0 },
        ASTNode::SetStatement { target, value, .. } => ASTNode::SetStatement { target, value, line: 0, column: 0 },
        ASTNode::AssignStatement { target, value, .. } => ASTNode::AssignStatement { target, value, line: 0, column: 0 },
        ASTNode::IfStatement { condition, then_body, elseif_clauses, else_body, .. } => ASTNode::IfStatement { condition, then_body, elseif_clauses, else_body, line: 0, column: 0 },
        ASTNode::InputStatement { target, prompt, .. } => ASTNode::InputStatement { target, prompt, line: 0, column: 0 },
        ASTNode::ForStatement { variable, start, end, step, body, .. } => ASTNode::ForStatement { variable, start, end, step, body, line: 0, column: 0 },
        ASTNode::ForeachStatement { variables, iterable, body, .. } => ASTNode::ForeachStatement { variables, iterable, body, line: 0, column: 0 },
        ASTNode::GenerateStatement { variable, start, end, by, body, .. } => ASTNode::GenerateStatement { variable, start, end, by, body, line: 0, column: 0 },
        ASTNode::ShowStatement { expr, .. } => ASTNode::ShowStatement { expr, line: 0, column: 0 },
        ASTNode::RepeatStatement { condition, body, .. } => ASTNode::RepeatStatement { condition, body, line: 0, column: 0 },
        ASTNode::RepeatTimeStatement { times, body, .. } => ASTNode::RepeatTimeStatement { times, body, line: 0, column: 0 },
        ASTNode::ShowLnStatement { .. } => ASTNode::ShowLnStatement { line: 0, column: 0 },
        ASTNode::IterateStatement { variable, iterable, body, .. } => ASTNode::IterateStatement { variable, iterable, body, line: 0, column: 0 },
        ASTNode::ChooseStatement { expr, when_clauses, default, .. } => ASTNode::ChooseStatement { expr, when_clauses, default, line: 0, column: 0 },
        ASTNode::FunctionDecl { name, params, body, .. } => ASTNode::FunctionDecl { name, params, body, line: 0, column: 0 },
        ASTNode::FunctionCall { name, args, .. } => ASTNode::FunctionCall { name, args, line: 0, column: 0 },
        ASTNode::ReturnStatement { value, .. } => ASTNode::ReturnStatement { value, line: 0, column: 0 },
        ASTNode::ClassDecl { name, inherit, body, .. } => ASTNode::ClassDecl { name, inherit, body, line: 0, column: 0 },
        ASTNode::MethodCall { object, method, args, .. } => ASTNode::MethodCall { object, method, args, line: 0, column: 0 },
        ASTNode::ImportStatement { modules, .. } => ASTNode::ImportStatement { modules, line: 0, column: 0 },
        ASTNode::FromImportStatement { module, imported, .. } => ASTNode::FromImportStatement { module, imported, line: 0, column: 0 },
        ASTNode::RaiseException { error, .. } => ASTNode::RaiseException { error, line: 0, column: 0 },
        ASTNode::TryCapture { try_body, capture_var, capture_body, .. } => ASTNode::TryCapture { try_body, capture_var, capture_body, line: 0, column: 0 },
        ASTNode::SkipStatement { .. } => ASTNode::SkipStatement { line: 0, column: 0 },
        ASTNode::ExitStatement { .. } => ASTNode::ExitStatement { line: 0, column: 0 },
        ASTNode::AwaitStatement { expr, .. } => ASTNode::AwaitStatement { expr, line: 0, column: 0 },
        ASTNode::FieldAccess { object, field, .. } => ASTNode::FieldAccess { object, field, line: 0, column: 0 },
        ASTNode::ParentMethodAccess { method, args, .. } => ASTNode::ParentMethodAccess { method, args, line: 0, column: 0 },
        ASTNode::ParentAccess { field, .. } => ASTNode::ParentAccess { field, line: 0, column: 0 },
        ASTNode::Callback { name, params, .. } => ASTNode::Callback { name, params, line: 0, column: 0 },
        ASTNode::Ternary { condition, then_expr, else_expr, .. } => ASTNode::Ternary { condition, then_expr, else_expr, line: 0, column: 0 },
        ASTNode::BinaryOperation { left, operator, right, .. } => ASTNode::BinaryOperation { left, operator, right, line: 0, column: 0 },
        ASTNode::UnaryOperation { operator, expr, .. } => ASTNode::UnaryOperation { operator, expr, line: 0, column: 0 },
        ASTNode::ArrayElement { elements, .. } => ASTNode::ArrayElement { elements, line: 0, column: 0 },
        ASTNode::ArrayAccess { name, indices, .. } => ASTNode::ArrayAccess { name, indices, line: 0, column: 0 },
        ASTNode::Dictionary { pairs, .. } => ASTNode::Dictionary { pairs, line: 0, column: 0 },
        ASTNode::DictionaryAccess { name, keys, .. } => ASTNode::DictionaryAccess { name, keys, line: 0, column: 0 },
        ASTNode::ClassInstantiation { class_expr, args, .. } => ASTNode::ClassInstantiation { class_expr, args, line: 0, column: 0 },
        ASTNode::ByteArray { args, .. } => ASTNode::ByteArray { args, line: 0, column: 0 },
        ASTNode::NumberLiteral { value, .. } => ASTNode::NumberLiteral { value, line: 0, column: 0 },
        ASTNode::StringLiteral { value, .. } => ASTNode::StringLiteral { value, line: 0, column: 0 },
        ASTNode::HexLiteral { value, .. } => ASTNode::HexLiteral { value, line: 0, column: 0 },
        ASTNode::BytesLiteral { value, .. } => ASTNode::BytesLiteral { value, line: 0, column: 0 },
        ASTNode::ScientificLiteral { value, .. } => ASTNode::ScientificLiteral { value, line: 0, column: 0 },
        ASTNode::Identifier { name, .. } => ASTNode::Identifier { name, line: 0, column: 0 },
        ASTNode::True { .. } => ASTNode::True { line: 0, column: 0 },
        ASTNode::False { .. } => ASTNode::False { line: 0, column: 0 },
        ASTNode::Null { .. } => ASTNode::Null { line: 0, column: 0 },
        ASTNode::FieldDecl { modifier, decl, .. } => ASTNode::FieldDecl { modifier, decl, line: 0, column: 0 },
        ASTNode::MethodDecl { modifier, name, params, body, .. } => ASTNode::MethodDecl { modifier, name, params, body, line: 0, column: 0 },
        ASTNode::ConstructorDecl { modifier, params, body, .. } => ASTNode::ConstructorDecl { modifier, params, body, line: 0, column: 0 },
        ASTNode::ParentConstructorCall { args, .. } => ASTNode::ParentConstructorCall { args, line: 0, column: 0 },
        ASTNode::This { .. } => ASTNode::This { line: 0, column: 0 },
        ASTNode::Block { statements, .. } => ASTNode::Block { statements, line: 0, column: 0 },
        ASTNode::EOF => ASTNode::EOF,
    }
}

impl<K> ASTNode<K> {
    /// The node placed at the token at `token_line`, `token_column`: the end
    /// of the input stays as it is; a call of the parent's constructor is
    /// moved by the token's line and column; any other node keeps its payload
    /// and takes the token's line and column.
    pub fn from_token(token_line: usize, token_column: usize, node: ASTNode<K>) -> (r: ASTNode<K>)
        requires
            node matches ASTNode::ParentConstructorCall { line, column, .. } ==> line + token_line <= usize::MAX
                && column + token_column <= usize::MAX,
        ensures
            unplaced(r) == unplaced(node),
            node is EOF ==> r is EOF,
            node matches ASTNode::ParentConstructorCall { line, column, .. } ==> position(r) == Some(
                ((line + token_line) as usize, (column + token_column) as usize),
            ),
            !(node is EOF) && !(node is ParentConstructorCall) ==> position(r) == Some((token_line, token_column)),
    {
        match node {
            ASTNode::Declaration { names, .. } => ASTNode::Declaration { names, line: token_line, column: token_column },
            ASTNode::SetStatement { target, value, .. } => ASTNode::SetStatement { target, value, line: token_line, column: token_column },
            ASTNode::AssignStatement { target, value, .. } => ASTNode::AssignStatement { target, value, line: token_line, column: token_column },
            ASTNode::IfStatement { condition, then_body, elseif_clauses, else_body, .. } => ASTNode::IfStatement { condition, then_body, elseif_clauses, else_body, line: token_line, column: token_column },
            ASTNode::InputStatement { target, prompt, .. } => ASTNode::InputStatement { target, prompt, line: token_line, column: token_column },
            ASTNode::ForStatement { variable, start, end, step, body, .. } => ASTNode::ForStatement { variable, start, end, step, body, line: token_line, column: token_column },
            ASTNode::ForeachStatement { variables, iterable, body, .. } => ASTNode::ForeachStatement { variables, iterable, body, line: token_line, column: token_column },
            ASTNode::GenerateStatement { variable, start, end, by, body, .. } => ASTNode::GenerateStatement { variable, start, end, by, body, line: token_line, column: token_column },
            ASTNode::ShowStatement { expr, .. } => ASTNode::ShowStatement { expr, line: token_line, column: token_column },
            ASTNode::RepeatStatement { condition, body, .. } => ASTNode::RepeatStatement { condition, body, line: token_line, column: token_column },
            ASTNode::RepeatTimeStatement { times, body, .. } => ASTNode::RepeatTimeStatement { times, body, line: token_line, column: token_column },
            ASTNode::ShowLnStatement { .. } => ASTNode::ShowLnStatement { line: token_line, column: token_column },
            ASTNode::IterateStatement { variable, iterable, body, .. } => ASTNode::IterateStatement { variable, iterable, body, line: token_line, column: token_column },
            ASTNode::ChooseStatement { expr, when_clauses, default, .. } => ASTNode::ChooseStatement { expr, when_clauses, default, line: token_line, column: token_column },
            ASTNode::FunctionDecl { name, params, body, .. } => ASTNode::FunctionDecl { name, params, body, line: token_line, column: token_column },
            ASTNode::FunctionCall { name, args, .. } => ASTNode::FunctionCall { name, args, line: token_line, column: token_column },
            ASTNode::ReturnStatement { value, .. } => ASTNode::ReturnStatement { value, line: token_line, column: token_column },
            ASTNode::ClassDecl { name, inherit, body, .. } => ASTNode::ClassDecl { name, inherit, body, line: token_line, column: token_column },
            ASTNode::MethodCall { object, method, args, .. } => ASTNode::MethodCall { object, method, args, line: token_line, column: token_column },
            ASTNode::ImportStatement { modules, .. } => ASTNode::ImportStatement { modules, line: token_line, column: token_column },
            ASTNode::FromImportStatement { module, imported, .. } => ASTNode::FromImportStatement { module, imported, line: token_line, column: token_column },
            ASTNode::RaiseException { error, .. } => ASTNode::RaiseException { error, line: token_line, column: token_column },
            ASTNode::TryCapture { try_body, capture_var, capture_body, .. } => ASTNode::TryCapture { try_body, capture_var, capture_body, line: token_line, column: token_column },
            ASTNode::SkipStatement { .. } => ASTNode::SkipStatement { line: token_line, column: token_column },
            ASTNode::ExitStatement { .. } => ASTNode::ExitStatement { line: token_line, column: token_column },
            ASTNode::AwaitStatement { expr, .. } => ASTNode::AwaitStatement { expr, line: token_line, column: token_column },
            ASTNode::FieldAccess { object, field, .. } => ASTNode::FieldAccess { object, field, line: token_line, column: token_column },
            ASTNode::ParentMethodAccess { method, args, .. } => ASTNode::ParentMethodAccess { method, args, line: token_line, column: token_column },
            ASTNode::ParentAccess { field, .. } => ASTNode::ParentAccess { field, line: token_line, column: token_column },
            ASTNode::Callback { name, params, .. } => ASTNode::Callback { name, params, line: token_line, column: token_column },
            ASTNode::Ternary { condition, then_expr, else_expr, .. } => ASTNode::Ternary { condition, then_expr, else_expr, line: token_line, column: token_column },
            ASTNode::BinaryOperation { left, operator, right, .. } => ASTNode::BinaryOperation { left, operator, right, line: token_line, column: token_column },
            ASTNode::UnaryOperation { operator, expr, .. } => ASTNode::UnaryOperation { operator, expr, line: token_line, column: token_column },
            ASTNode::ArrayElement { elements, .. } => ASTNode::ArrayElement { elements, line: token_line, column: token_column },
            ASTNode::ArrayAccess { name, indices, .. } => ASTNode::ArrayAccess { name, indices, line: token_line, column: token_column },
            ASTNode::Dictionary { pairs, .. } => ASTNode::Dictionary { pairs, line: token_line, column: token_column },
            ASTNode::DictionaryAccess { name, keys, .. } => ASTNode::DictionaryAccess { name, keys, line: token_line, column: token_column },
            ASTNode::ClassInstantiation { class_expr, args, .. } => ASTNode::ClassInstantiation { class_expr, args, line: token_line, column: token_column },
            ASTNode::ByteArray { args, .. } => ASTNode::ByteArray { args, line: token_line, column: token_column },
            ASTNode::NumberLiteral { value, .. } => ASTNode::NumberLiteral { value, line: token_line, column: token_column },
            ASTNode::StringLiteral { value, .. } => ASTNode::StringLiteral { value, line: token_line, column: token_column },
            ASTNode::HexLiteral { value, .. } => ASTNode::HexLiteral { value, line: token_line, column: token_column },
            ASTNode::BytesLiteral { value, .. } => ASTNode::BytesLiteral { value, line: token_line, column: token_column },
            ASTNode::ScientificLiteral { value, .. } => ASTNode::ScientificLiteral { value, line: token_line, column: token_column },
            ASTNode::Identifier { name, .. } => ASTNode::Identifier { name, line: token_line, column: token_column },
            ASTNode::True { .. } => ASTNode::True { line: token_line, column: token_column },
            ASTNode::False { .. } => ASTNode::False { line: token_line, column: token_column },
            ASTNode::Null { .. } => ASTNode::Null { line: token_line, column: token_column },
            ASTNode::FieldDecl { modifier, decl, .. } => ASTNode::FieldDecl { modifier, decl, line: token_line, column: token_column },
            ASTNode::MethodDecl { modifier, name, params, body, .. } => ASTNode::MethodDecl { modifier, name, params, body, line: token_line, column: token_column },
            ASTNode::ConstructorDecl { modifier, params, body, .. } => ASTNode::ConstructorDecl { modifier, params, body, line: token_line, column: token_column },
            ASTNode::ParentConstructorCall { args, line, column } => ASTNode::ParentConstructorCall { args, line: line + token_line, column: column + token_column },
            ASTNode::This { .. } => ASTNode::This { line: token_line, column: token_column },
            ASTNode::Block { statements, .. } => ASTNode::Block { statements, line: token_line, column: token_column },
            ASTNode::EOF => ASTNode::EOF,
        }
    }
}

} // verus!
