//! The abstract syntax tree, its mathematical model, and its rendering as
//! fully parenthesised text.

use vstd::prelude::*;
use crate::token::{Token, TokenModel};

verus! {

// ---------------------------------------------------------------------
// Models
// ---------------------------------------------------------------------

pub struct IdentifierModel {
    pub token: TokenModel,
    pub value: Seq<char>,
}

pub struct FunctionModel {
    pub token: TokenModel,
    pub parameters: Seq<IdentifierModel>,
    pub body: BlockModel,
}

#[allow(inconsistent_fields)]
pub enum ExpressionModel {
    Identifier(IdentifierModel),
    IntegerLiteral { token: TokenModel, value: i64 },
    Prefix { token: TokenModel, operator: Seq<char>, right: Box<ExpressionModel> },
    Infix {
        token: TokenModel,
        operator: Seq<char>,
        left: Box<ExpressionModel>,
        right: Box<ExpressionModel>,
    },
    Boolean { token: TokenModel, value: bool },
    If {
        token: TokenModel,
        condition: Box<ExpressionModel>,
        consequence: BlockModel,
        alternative: Option<BlockModel>,
    },
    Function(FunctionModel),
    Call { token: TokenModel, function: Box<ExpressionModel>, arguments: Seq<ExpressionModel> },
}

pub struct BlockModel {
    pub token: TokenModel,
    pub statements: Seq<StatementModel>,
}

#[allow(inconsistent_fields)]
pub enum StatementModel {
    Let { token: TokenModel, name: IdentifierModel, value: ExpressionModel },
    Return { token: TokenModel, value: ExpressionModel },
    Expression { token: TokenModel, value: ExpressionModel },
}

pub struct ProgramModel {
    pub statements: Seq<StatementModel>,
}

// ---------------------------------------------------------------------
// Nodes
// ---------------------------------------------------------------------

/// The root of a syntax tree.
#[derive(Debug, PartialEq, Eq)]
pub struct Program {
    pub statements: Vec<Statements>,
}

#[derive(Debug, PartialEq, Eq)]
pub enum Statements {
    LetStatement(LetStatement),
    ReturnStatement(ReturnStatement),
    ExpressionStatement(ExpressionStatement),
}

#[derive(Debug, PartialEq, Eq)]
pub struct LetStatement {
    pub token: Token,
    pub name: Identifier,
    pub value: Expression,
}

#[derive(Debug, PartialEq, Eq)]
pub struct ReturnStatement {
    pub token: Token,
    pub return_value: Expression,
}

#[derive(Debug, PartialEq, Eq)]
pub struct ExpressionStatement {
    pub token: Token,
    pub expression: Expression,
}

#[derive(Debug, PartialEq, Eq)]
pub enum Expression {
    Identifier(Identifier),
    IntegerLiteral(IntegerLiteral),
    PrefixExpression(PrefixExpression),
    InfixExpression(InfixExpression),
    Boolean(Boolean),
    IfExpression(IfExpression),
    FunctionLiteral(FunctionLiteral),
    CallExpression(CallExpression),
}

#[derive(Debug, PartialEq, Eq)]
pub struct Identifier {
    pub token: Token,
    pub value: String,
}

#[derive(Debug, PartialEq, Eq)]
pub struct IntegerLiteral {
    pub token: Token,
    pub value: i64,
}

#[derive(Debug, PartialEq, Eq)]
pub struct PrefixExpression {
    pub token: Token,
    pub operator: String,
    pub right: Box<Expression>,
}

#[derive(Debug, PartialEq, Eq)]
pub struct InfixExpression {
    pub token: Token,
    pub operator: String,
    pub right: Box<Expression>,
    pub left: Box<Expression>,
}

#[derive(Debug, PartialEq, Eq)]
pub struct Boolean {
    pub token: Token,
    pub value: bool,
}

#[derive(Debug, PartialEq, Eq)]
pub struct IfExpression {
    pub token: Token,
    pub condition: Box<Expression>,
    pub consequence: BlockStatement,
    pub alternative: Option<BlockStatement>,
}

#[derive(Debug, PartialEq, Eq)]
pub struct BlockStatement {
    pub token: Token,
    pub statements: Vec<Statements>,
}

#[derive(Debug, PartialEq, Eq)]
pub struct FunctionLiteral {
    pub token: Token,
    pub parameters: Vec<Identifier>,
    pub body: BlockStatement,
}

#[derive(Debug, PartialEq, Eq)]
pub struct CallExpression {
    pub token: Token,
    pub function: Box<Expression>,
    pub arguments: Vec<Expression>,
}

// ---------------------------------------------------------------------
// From nodes to models
// ---------------------------------------------------------------------

/// The models of a sequence of identifiers, in order.
pub open spec fn identifiers_model(v: Seq<Identifier>) -> Seq<IdentifierModel> {
    Seq::new(v.len(), |i: int| v[i]@)
}

/// The models of a sequence of expressions, in order.
pub open spec fn expressions_model(v: Seq<Expression>) -> Seq<ExpressionModel> {
    Seq::new(v.len(), |i: int| v[i].model())
}

/// The models of a sequence of statements, in order.
pub open spec fn statements_model(v: Seq<Statements>) -> Seq<StatementModel> {
    Seq::new(v.len(), |i: int| v[i].model())
}

impl View for Identifier {
    type V = IdentifierModel;

    open spec fn view(&self) -> IdentifierModel {
        IdentifierModel { token: self.token@, value: self.value@ }
    }
}

impl Expression {
    pub open spec fn model(&self) -> ExpressionModel
        decreases self,
    {
        match self {
            Expression::Identifier(x) => ExpressionModel::Identifier(x@),
            Expression::IntegerLiteral(x) => ExpressionModel::IntegerLiteral {
                token: x.token@,
                value: x.value,
            },
            Expression::PrefixExpression(x) => ExpressionModel::Prefix {
                token: x.token@,
                operator: x.operator@,
                right: Box::new(x.right.model()),
            },
            Expression::InfixExpression(x) => ExpressionModel::Infix {
                token: x.token@,
                operator: x.operator@,
                left: Box::new(x.left.model()),
                right: Box::new(x.right.model()),
            },
            Expression::Boolean(x) => ExpressionModel::Boolean { token: x.token@, value: x.value },
            Expression::IfExpression(x) => ExpressionModel::If {
                token: x.token@,
                condition: Box::new(x.condition.model()),
                consequence: BlockModel {
                    token: x.consequence.token@,
                    statements: Seq::new(
                        x.consequence.statements.len() as nat,
                        |i: int|
                            if 0 <= i < x.consequence.statements.len() {
                                x.consequence.statements[i].model()
                            } else {
                                arbitrary()
                            },
                    ),
                },
                alternative: match x.alternative {
                    Some(block) => Some(
                        BlockModel {
                            token: block.token@,
                            statements: Seq::new(
                                block.statements.len() as nat,
                                |i: int|
                                    if 0 <= i < block.statements.len() {
                                        block.statements[i].model()
                                    } else {
                                        arbitrary()
                                    },
                            ),
                        },
                    ),
                    None => None,
                },
            },
            Expression::FunctionLiteral(x) => ExpressionModel::Function(
                FunctionModel {
                    token: x.token@,
                    parameters: identifiers_model(x.parameters@),
                    body: BlockModel {
                        token: x.body.token@,
                        statements: Seq::new(
                            x.body.statements.len() as nat,
                            |i: int|
                                if 0 <= i < x.body.statements.len() {
                                    x.body.statements[i].model()
                                } else {
                                    arbitrary()
                                },
                        ),
                    },
                },
            ),
            Expression::CallExpression(x) => ExpressionModel::Call {
                token: x.token@,
                function: Box::new(x.function.model()),
                arguments: Seq::new(
                    x.arguments.len() as nat,
                    |i: int|
                        if 0 <= i < x.arguments.len() {
                            x.arguments[i].model()
                        } else {
                            arbitrary()
                        },
                ),
            },
        }
    }
}

impl View for Expression {
    type V = ExpressionModel;

    open spec fn view(&self) -> ExpressionModel {
        self.model()
    }
}

impl Statements {
    pub open spec fn model(&self) -> StatementModel
        decreases self,
    {
        match self {
            Statements::LetStatement(x) => StatementModel::Let {
                token: x.token@,
                name: x.name@,
                value: x.value.model(),
            },
            Statements::ReturnStatement(x) => StatementModel::Return {
                token: x.token@,
                value: x.return_value.model(),
            },
            Statements::ExpressionStatement(x) => StatementModel::Expression {
                token: x.token@,
                value: x.expression.model(),
            },
        }
    }
}

impl View for Statements {
    type V = StatementModel;

    open spec fn view(&self) -> StatementModel {
        self.model()
    }
}

impl View for BlockStatement {
    type V = BlockModel;

    open spec fn view(&self) -> BlockModel {
        BlockModel { token: self.token@, statements: statements_model(self.statements@) }
    }
}

impl View for FunctionLiteral {
    type V = FunctionModel;

    open spec fn view(&self) -> FunctionModel {
        FunctionModel {
            token: self.token@,
            parameters: identifiers_model(self.parameters@),
            body: self.body@,
        }
    }
}

impl View for LetStatement {
    type V = StatementModel;

    open spec fn view(&self) -> StatementModel {
        StatementModel::Let { token: self.token@, name: self.name@, value: self.value@ }
    }
}

impl View for ReturnStatement {
    type V = StatementModel;

    open spec fn view(&self) -> StatementModel {
        StatementModel::Return { token: self.token@, value: self.return_value@ }
    }
}

impl View for ExpressionStatement {
    type V = StatementModel;

    open spec fn view(&self) -> StatementModel {
        StatementModel::Expression { token: self.token@, value: self.expression@ }
    }
}

impl View for Program {
    type V = ProgramModel;

    open spec fn view(&self) -> ProgramModel {
        ProgramModel { statements: statements_model(self.statements@) }
    }
}

impl View for IntegerLiteral {
    type V = ExpressionModel;

    open spec fn view(&self) -> ExpressionModel {
        ExpressionModel::IntegerLiteral { token: self.token@, value: self.value }
    }
}

impl View for Boolean {
    type V = ExpressionModel;

    open spec fn view(&self) -> ExpressionModel {
        ExpressionModel::Boolean { token: self.token@, value: self.value }
    }
}

impl View for PrefixExpression {
    type V = ExpressionModel;

    open spec fn view(&self) -> ExpressionModel {
        ExpressionModel::Prefix {
            token: self.token@,
            operator: self.operator@,
            right: Box::new(self.right.model()),
        }
    }
}

impl View for InfixExpression {
    type V = ExpressionModel;

    open spec fn view(&self) -> ExpressionModel {
        ExpressionModel::Infix {
            token: self.token@,
            operator: self.operator@,
            left: Box::new(self.left.model()),
            right: Box::new(self.right.model()),
        }
    }
}

impl View for IfExpression {
    type V = ExpressionModel;

    open spec fn view(&self) -> ExpressionModel {
        ExpressionModel::If {
            token: self.token@,
            condition: Box::new(self.condition.model()),
            consequence: self.consequence@,
            alternative: match self.alternative {
                Some(block) => Some(block@),
                None => None,
            },
        }
    }
}

impl View for CallExpression {
    type V = ExpressionModel;

    open spec fn view(&self) -> ExpressionModel {
        ExpressionModel::Call {
            token: self.token@,
            function: Box::new(self.function.model()),
            arguments: expressions_model(self.arguments@),
        }
    }
}



/// The model of an `if` node is the view of its parts.
pub proof fn lemma_if_model(x: IfExpression)
    ensures
        Expression::IfExpression(x)@ == x@,
{
    let m = Expression::IfExpression(x)@;
    assert(m->If_consequence.statements =~= statements_model(x.consequence.statements@));
    match x.alternative {
        Some(block) => {
            assert(m->If_alternative->0.statements =~= statements_model(block.statements@));
        },
        None => {},
    }
}

/// The model of a function literal node is the view of its parts.
pub proof fn lemma_function_model(x: FunctionLiteral)
    ensures
        Expression::FunctionLiteral(x)@ == ExpressionModel::Function(x@),
{
    let m = Expression::FunctionLiteral(x)@;
    assert(m->Function_0.body.statements =~= statements_model(x.body.statements@));
}

/// The model of a call node is the view of its parts.
pub proof fn lemma_call_model(x: CallExpression)
    ensures
        Expression::CallExpression(x)@ == x@,
{
    let m = Expression::CallExpression(x)@;
    assert(m->Call_arguments =~= expressions_model(x.arguments@));
}

/// Appending a node appends its model.
pub proof fn lemma_identifiers_model_push(v: Seq<Identifier>, x: Identifier)
    ensures
        identifiers_model(v.push(x)) == identifiers_model(v).push(x@),
{
    assert(identifiers_model(v.push(x)) =~= identifiers_model(v).push(x@));
}

/// Appending a node appends its model.
pub proof fn lemma_expressions_model_push(v: Seq<Expression>, x: Expression)
    ensures
        expressions_model(v.push(x)) == expressions_model(v).push(x@),
{
    assert(expressions_model(v.push(x)) =~= expressions_model(v).push(x@));
}

/// Appending a node appends its model.
pub proof fn lemma_statements_model_push(v: Seq<Statements>, x: Statements)
    ensures
        statements_model(v.push(x)) == statements_model(v).push(x@),
{
    assert(statements_model(v.push(x)) =~= statements_model(v).push(x@));
}

// ---------------------------------------------------------------------
// Rendering
// ---------------------------------------------------------------------

/// The parameters of a function literal, each followed by a comma.
pub open spec fn spec_parameters_string(parameters: Seq<IdentifierModel>) -> Seq<char>
    decreases parameters.len(),
{
    if parameters.len() == 0 {
        Seq::empty()
    } else {
        spec_parameters_string(parameters.drop_last()) + parameters.last().value + ","@
    }
}

/// The renderings of the arguments of a call, one behind the other.
pub open spec fn spec_arguments_string(arguments: Seq<ExpressionModel>) -> Seq<char>
    decreases arguments,
{
    if arguments.len() == 0 {
        Seq::empty()
    } else {
        spec_arguments_string(arguments.drop_last()) + spec_expression_string(arguments.last())
    }
}

/// The renderings of a sequence of statements, one behind the other.
pub open spec fn spec_statements_string(statements: Seq<StatementModel>) -> Seq<char>
    decreases statements,
{
    if statements.len() == 0 {
        Seq::empty()
    } else {
        spec_statements_string(statements.drop_last()) + spec_statement_string(statements.last())
    }
}

/// `let` and `return` statements end in a semicolon; an expression
/// statement is rendered as its expression.
pub open spec fn spec_statement_string(statement: StatementModel) -> Seq<char>
    decreases statement,
{
    match statement {
        StatementModel::Let { token, name, value } => token.literal + " "@ + name.value + " = "@
            + spec_expression_string(value) + ";"@,
        StatementModel::Return { token, value } => token.literal + " "@ + spec_expression_string(
            value,
        ) + ";"@,
        StatementModel::Expression { token, value } => spec_expression_string(value),
    }
}

/// A function literal: its keyword, the parameters in parentheses, and the
/// body.
pub open spec fn spec_function_string(function: FunctionModel) -> Seq<char> {
    function.token.literal + "("@ + spec_parameters_string(function.parameters) + ") "@
        + spec_statements_string(function.body.statements)
}

/// Every prefix and infix expression is wrapped in parentheses, so the
/// rendering shows how the operators were grouped.
pub open spec fn spec_expression_string(expression: ExpressionModel) -> Seq<char>
    decreases expression,
{
    match expression {
        ExpressionModel::Identifier(identifier) => identifier.value,
        ExpressionModel::IntegerLiteral { token, value } => token.literal,
        ExpressionModel::Prefix { token, operator, right } => "("@ + operator
            + spec_expression_string(*right) + ")"@,
        ExpressionModel::Infix { token, operator, left, right } => "("@ + spec_expression_string(
            *left,
        ) + " "@ + operator + " "@ + spec_expression_string(*right) + ")"@,
        ExpressionModel::Boolean { token, value } => token.literal,
        ExpressionModel::If { token, condition, consequence, alternative } => "if "@
            + spec_expression_string(*condition) + " "@ + spec_statements_string(
            consequence.statements,
        ) + match alternative {
            Some(block) => spec_statements_string(block.statements),
            None => Seq::empty(),
        },
        ExpressionModel::Function(function) => function.token.literal + "("@
            + spec_parameters_string(function.parameters) + ") "@ + spec_statements_string(
            function.body.statements,
        ),
        ExpressionModel::Call { token, function, arguments } => spec_expression_string(*function)
            + "("@ + spec_arguments_string(arguments) + ")"@,
    }
}

/// Rendering one more statement appends its text.
pub proof fn lemma_statements_string_step(models: Seq<StatementModel>, i: int)
    requires
        0 <= i < models.len(),
    ensures
        spec_statements_string(models.take(i + 1)) == spec_statements_string(models.take(i))
            + spec_statement_string(models[i]),
{
    assert(models.take(i + 1).drop_last() =~= models.take(i));
    assert(models.take(i + 1).last() == models[i]);
}

/// Rendering one more argument appends its text.
pub proof fn lemma_arguments_string_step(models: Seq<ExpressionModel>, i: int)
    requires
        0 <= i < models.len(),
    ensures
        spec_arguments_string(models.take(i + 1)) == spec_arguments_string(models.take(i))
            + spec_expression_string(models[i]),
{
    assert(models.take(i + 1).drop_last() =~= models.take(i));
    assert(models.take(i + 1).last() == models[i]);
}

/// Rendering one more parameter appends its name and a comma.
pub proof fn lemma_parameters_string_step(models: Seq<IdentifierModel>, i: int)
    requires
        0 <= i < models.len(),
    ensures
        spec_parameters_string(models.take(i + 1)) == spec_parameters_string(models.take(i))
            + models[i].value + ","@,
{
    assert(models.take(i + 1).drop_last() =~= models.take(i));
    assert(models.take(i + 1).last() == models[i]);
}

/// Renders the statements of `v` from the first to the last.
fn statements_to_string(v: &Vec<Statements>) -> (s: String)
    ensures
        s@ == spec_statements_string(statements_model(v@)),
    decreases v,
{
    let mut s: String = String::new();
    let n: usize = v.len();
    let mut i: usize = 0;
    let ghost models = statements_model(v@);
    while i < n
        invariant
            n == v.len(),
            i <= n,
            models.len() == n,
            forall|j: int| 0 <= j < n ==> models[j] == (#[trigger] v[j])@,
            s@ == spec_statements_string(models.take(i as int)),
        decreases n - i,
    {
        let piece: String = v[i].to_string();
        s.append(piece.as_str());
        proof {
            lemma_statements_string_step(models, i as int);
        }
        i += 1;
    }
    proof {
        assert(models.take(n as int) =~= models);
    }
    s
}

impl Program {
    pub fn to_string(&self) -> (s: String)
        ensures
            s@ == spec_statements_string(self@.statements),
    {
        statements_to_string(&self.statements)
    }
}

impl BlockStatement {
    pub fn to_string(&self) -> (s: String)
        ensures
            s@ == spec_statements_string(self@.statements),
        decreases self,
    {
        statements_to_string(&self.statements)
    }
}

impl Statements {
    pub fn to_string(&self) -> (s: String)
        ensures
            s@ == spec_statement_string(self@),
        decreases self,
    {
        match self {
            Statements::LetStatement(x) => x.to_string(),
            Statements::ReturnStatement(x) => x.to_string(),
            Statements::ExpressionStatement(x) => x.to_string(),
        }
    }
}

impl LetStatement {
    pub fn to_string(&self) -> (s: String)
        ensures
            s@ == spec_statement_string(self@),
        decreases self,
    {
        let value: String = self.value.to_string();
        let mut s: String = self.token.literal.clone();
        s.append(" ");
        s.append(self.name.value.as_str());
        s.append(" = ");
        s.append(value.as_str());
        s.append(";");
        s
    }
}

impl ReturnStatement {
    pub fn to_string(&self) -> (s: String)
        ensures
            s@ == spec_statement_string(self@),
        decreases self,
    {
        let value: String = self.return_value.to_string();
        let mut s: String = self.token.literal.clone();
        s.append(" ");
        s.append(value.as_str());
        s.append(";");
        s
    }
}

impl ExpressionStatement {
    pub fn to_string(&self) -> (s: String)
        ensures
            s@ == spec_statement_string(self@),
        decreases self,
    {
        self.expression.to_string()
    }
}

impl Expression {
    pub fn to_string(&self) -> (s: String)
        ensures
            s@ == spec_expression_string(self@),
        decreases self,
    {
        match self {
            Expression::Identifier(x) => x.value.clone(),
            Expression::IntegerLiteral(x) => x.token.literal.clone(),
            Expression::PrefixExpression(x) => {
                let right: String = x.right.to_string();
                let mut s: String = String::from_str("(");
                s.append(x.operator.as_str());
                s.append(right.as_str());
                s.append(")");
                s
            },
            Expression::InfixExpression(x) => {
                let left: String = x.left.to_string();
                let right: String = x.right.to_string();
                let mut s: String = String::from_str("(");
                s.append(left.as_str());
                s.append(" ");
                s.append(x.operator.as_str());
                s.append(" ");
                s.append(right.as_str());
                s.append(")");
                s
            },
            Expression::Boolean(x) => x.token.literal.clone(),
            Expression::FunctionLiteral(x) => {
                proof {
                    lemma_function_model(*x);
                }
                x.to_string()
            },
            Expression::IfExpression(x) => {
                proof {
                    lemma_if_model(*x);
                }
                x.to_string()
            },
            Expression::CallExpression(x) => {
                proof {
                    lemma_call_model(*x);
                }
                x.to_string()
            },
        }
    }
}

impl IfExpression {
    pub fn to_string(&self) -> (s: String)
        ensures
            s@ == spec_expression_string(self@),
        decreases self,
    {
        let condition: String = self.condition.to_string();
        let consequence: String = self.consequence.to_string();
        let mut s: String = String::from_str("if ");
        s.append(condition.as_str());
        s.append(" ");
        s.append(consequence.as_str());
        match &self.alternative {
            Some(block) => {
                let alternative: String = block.to_string();
                s.append(alternative.as_str());
            },
            None => {
                assert(s@ + Seq::<char>::empty() =~= s@);
            },
        }
        s
    }
}

impl FunctionLiteral {
    pub fn to_string(&self) -> (s: String)
        ensures
            s@ == spec_function_string(self@),
        decreases self,
    {
        let mut parameters: String = String::new();
        let n: usize = self.parameters.len();
        let mut i: usize = 0;
        let ghost models = identifiers_model(self.parameters@);
        while i < n
            invariant
                n == self.parameters.len(),
                i <= n,
                models.len() == n,
                forall|j: int| 0 <= j < n ==> models[j] == (#[trigger] self.parameters[j])@,
                parameters@ == spec_parameters_string(models.take(i as int)),
            decreases n - i,
        {
            parameters.append(self.parameters[i].value.as_str());
            parameters.append(",");
            proof {
                lemma_parameters_string_step(models, i as int);
            }
            i += 1;
        }
        proof {
            assert(models.take(n as int) =~= models);
        }
        let body: String = self.body.to_string();
        let mut s: String = self.token.literal.clone();
        s.append("(");
        s.append(parameters.as_str());
        s.append(") ");
        s.append(body.as_str());
        s
    }
}

impl CallExpression {
    pub fn to_string(&self) -> (s: String)
        ensures
            s@ == spec_expression_string(self@),
        decreases self,
    {
        let mut arguments: String = String::new();
        let n: usize = self.arguments.len();
        let mut i: usize = 0;
        let ghost models = expressions_model(self.arguments@);
        while i < n
            invariant
                n == self.arguments.len(),
                i <= n,
                models.len() == n,
                forall|j: int| 0 <= j < n ==> models[j] == (#[trigger] self.arguments[j])@,
                arguments@ == spec_arguments_string(models.take(i as int)),
            decreases n - i,
        {
            let piece: String = self.arguments[i].to_string();
            arguments.append(piece.as_str());
            proof {
                lemma_arguments_string_step(models, i as int);
            }
            i += 1;
        }
        proof {
            assert(models.take(n as int) =~= models);
        }
        let function: String = self.function.to_string();
        let mut s: String = function;
        s.append("(");
        s.append(arguments.as_str());
        s.append(")");
        s
    }
}



// ---------------------------------------------------------------------
// Copies
// ---------------------------------------------------------------------

fn duplicate_identifiers(v: &Vec<Identifier>) -> (r: Vec<Identifier>)
    ensures
        identifiers_model(r@) == identifiers_model(v@),
{
    let mut r: Vec<Identifier> = Vec::new();
    let n: usize = v.len();
    let mut i: usize = 0;
    while i < n
        invariant
            n == v.len(),
            i <= n,
            r.len() == i,
            forall|j: int| 0 <= j < i ==> (#[trigger] r[j])@ == v[j]@,
        decreases n - i,
    {
        r.push(v[i].duplicate());
        i += 1;
    }
    proof {
        assert(identifiers_model(r@) =~= identifiers_model(v@));
    }
    r
}

fn duplicate_expressions(v: &Vec<Expression>) -> (r: Vec<Expression>)
    ensures
        expressions_model(r@) == expressions_model(v@),
    decreases v,
{
    let mut r: Vec<Expression> = Vec::new();
    let n: usize = v.len();
    let mut i: usize = 0;
    while i < n
        invariant
            n == v.len(),
            i <= n,
            r.len() == i,
            forall|j: int| 0 <= j < i ==> (#[trigger] r[j])@ == v[j]@,
        decreases n - i,
    {
        r.push(v[i].duplicate());
        i += 1;
    }
    proof {
        assert(expressions_model(r@) =~= expressions_model(v@));
    }
    r
}

fn duplicate_statements(v: &Vec<Statements>) -> (r: Vec<Statements>)
    ensures
        statements_model(r@) == statements_model(v@),
    decreases v,
{
    let mut r: Vec<Statements> = Vec::new();
    let n: usize = v.len();
    let mut i: usize = 0;
    while i < n
        invariant
            n == v.len(),
            i <= n,
            r.len() == i,
            forall|j: int| 0 <= j < i ==> (#[trigger] r[j])@ == v[j]@,
        decreases n - i,
    {
        r.push(v[i].duplicate());
        i += 1;
    }
    proof {
        assert(statements_model(r@) =~= statements_model(v@));
    }
    r
}

impl Identifier {
    /// A copy of this node.
    pub fn duplicate(&self) -> (r: Identifier)
        ensures
            r@ == self@,
    {
        Identifier { token: self.token.duplicate(), value: self.value.clone() }
    }
}

impl IntegerLiteral {
    /// A copy of this node.
    pub fn duplicate(&self) -> (r: IntegerLiteral)
        ensures
            r@ == self@,
    {
        IntegerLiteral { token: self.token.duplicate(), value: self.value }
    }
}

impl Boolean {
    /// A copy of this node.
    pub fn duplicate(&self) -> (r: Boolean)
        ensures
            r@ == self@,
    {
        Boolean { token: self.token.duplicate(), value: self.value }
    }
}

impl PrefixExpression {
    /// A copy of this node and everything below it.
    pub fn duplicate(&self) -> (r: PrefixExpression)
        ensures
            r@ == self@,
        decreases self,
    {
        PrefixExpression {
            token: self.token.duplicate(),
            operator: self.operator.clone(),
            right: Box::new(self.right.duplicate()),
        }
    }
}

impl InfixExpression {
    /// A copy of this node and everything below it.
    pub fn duplicate(&self) -> (r: InfixExpression)
        ensures
            r@ == self@,
        decreases self,
    {
        InfixExpression {
            token: self.token.duplicate(),
            operator: self.operator.clone(),
            right: Box::new(self.right.duplicate()),
            left: Box::new(self.left.duplicate()),
        }
    }
}

impl IfExpression {
    /// A copy of this node and everything below it.
    pub fn duplicate(&self) -> (r: IfExpression)
        ensures
            r@ == self@,
        decreases self,
    {
        IfExpression {
            token: self.token.duplicate(),
            condition: Box::new(self.condition.duplicate()),
            consequence: self.consequence.duplicate(),
            alternative: match &self.alternative {
                Some(block) => Some(block.duplicate()),
                None => None,
            },
        }
    }
}

impl BlockStatement {
    /// A copy of this node and everything below it.
    pub fn duplicate(&self) -> (r: BlockStatement)
        ensures
            r@ == self@,
        decreases self,
    {
        BlockStatement {
            token: self.token.duplicate(),
            statements: duplicate_statements(&self.statements),
        }
    }
}

impl FunctionLiteral {
    /// A copy of this node and everything below it.
    pub fn duplicate(&self) -> (r: FunctionLiteral)
        ensures
            r@ == self@,
        decreases self,
    {
        FunctionLiteral {
            token: self.token.duplicate(),
            parameters: duplicate_identifiers(&self.parameters),
            body: self.body.duplicate(),
        }
    }
}

impl CallExpression {
    /// A copy of this node and everything below it.
    pub fn duplicate(&self) -> (r: CallExpression)
        ensures
            r@ == self@,
        decreases self,
    {
        CallExpression {
            token: self.token.duplicate(),
            function: Box::new(self.function.duplicate()),
            arguments: duplicate_expressions(&self.arguments),
        }
    }
}

impl Expression {
    /// A copy of this node and everything below it.
    pub fn duplicate(&self) -> (r: Expression)
        ensures
            r@ == self@,
        decreases self,
    {
        match self {
            Expression::Identifier(x) => Expression::Identifier(x.duplicate()),
            Expression::IntegerLiteral(x) => Expression::IntegerLiteral(x.duplicate()),
            Expression::PrefixExpression(x) => Expression::PrefixExpression(x.duplicate()),
            Expression::InfixExpression(x) => Expression::InfixExpression(x.duplicate()),
            Expression::Boolean(x) => Expression::Boolean(x.duplicate()),
            Expression::IfExpression(x) => {
                let node: IfExpression = x.duplicate();
                proof {
                    lemma_if_model(*x);
                    lemma_if_model(node);
                }
                Expression::IfExpression(node)
            },
            Expression::FunctionLiteral(x) => {
                let node: FunctionLiteral = x.duplicate();
                proof {
                    lemma_function_model(*x);
                    lemma_function_model(node);
                }
                Expression::FunctionLiteral(node)
            },
            Expression::CallExpression(x) => {
                let node: CallExpression = x.duplicate();
                proof {
                    lemma_call_model(*x);
                    lemma_call_model(node);
                }
                Expression::CallExpression(node)
            },
        }
    }
}

impl LetStatement {
    /// A copy of this node and everything below it.
    pub fn duplicate(&self) -> (r: LetStatement)
        ensures
            r@ == self@,
        decreases self,
    {
        LetStatement {
            token: self.token.duplicate(),
            name: self.name.duplicate(),
            value: self.value.duplicate(),
        }
    }
}

impl ReturnStatement {
    /// A copy of this node and everything below it.
    pub fn duplicate(&self) -> (r: ReturnStatement)
        ensures
            r@ == self@,
        decreases self,
    {
        ReturnStatement {
            token: self.token.duplicate(),
            return_value: self.return_value.duplicate(),
        }
    }
}

impl ExpressionStatement {
    /// A copy of this node and everything below it.
    pub fn duplicate(&self) -> (r: ExpressionStatement)
        ensures
            r@ == self@,
        decreases self,
    {
        ExpressionStatement {
            token: self.token.duplicate(),
            expression: self.expression.duplicate(),
        }
    }
}

impl Statements {
    /// A copy of this node and everything below it.
    pub fn duplicate(&self) -> (r: Statements)
        ensures
            r@ == self@,
        decreases self,
    {
        match self {
            Statements::LetStatement(x) => Statements::LetStatement(x.duplicate()),
            Statements::ReturnStatement(x) => Statements::ReturnStatement(x.duplicate()),
            Statements::ExpressionStatement(x) => Statements::ExpressionStatement(x.duplicate()),
        }
    }
}

impl Program {
    /// A copy of this program.
    pub fn duplicate(&self) -> (r: Program)
        ensures
            r@ == self@,
    {
        Program { statements: duplicate_statements(&self.statements) }
    }
}

impl Clone for Identifier {
    fn clone(&self) -> (r: Self)
        ensures
            r@ == self@,
    {
        self.duplicate()
    }
}

impl Clone for IntegerLiteral {
    fn clone(&self) -> (r: Self)
        ensures
            r@ == self@,
    {
        self.duplicate()
    }
}

impl Clone for Boolean {
    fn clone(&self) -> (r: Self)
        ensures
            r@ == self@,
    {
        self.duplicate()
    }
}

impl Clone for Program {
    fn clone(&self) -> (r: Self)
        ensures
            r@ == self@,
    {
        self.duplicate()
    }
}

impl Clone for Statements {
    fn clone(&self) -> (r: Self)
        ensures
            r@ == self@,
    {
        self.duplicate()
    }
}

impl Clone for LetStatement {
    fn clone(&self) -> (r: Self)
        ensures
            r@ == self@,
    {
        self.duplicate()
    }
}

impl Clone for ReturnStatement {
    fn clone(&self) -> (r: Self)
        ensures
            r@ == self@,
    {
        self.duplicate()
    }
}

impl Clone for ExpressionStatement {
    fn clone(&self) -> (r: Self)
        ensures
            r@ == self@,
    {
        self.duplicate()
    }
}

impl Clone for Expression {
    fn clone(&self) -> (r: Self)
        ensures
            r@ == self@,
    {
        self.duplicate()
    }
}

impl Clone for PrefixExpression {
    fn clone(&self) -> (r: Self)
        ensures
            r@ == self@,
    {
        self.duplicate()
    }
}

impl Clone for InfixExpression {
    fn clone(&self) -> (r: Self)
        ensures
            r@ == self@,
    {
        self.duplicate()
    }
}

impl Clone for IfExpression {
    fn clone(&self) -> (r: Self)
        ensures
            r@ == self@,
    {
        self.duplicate()
    }
}

impl Clone for BlockStatement {
    fn clone(&self) -> (r: Self)
        ensures
            r@ == self@,
    {
        self.duplicate()
    }
}

impl Clone for FunctionLiteral {
    fn clone(&self) -> (r: Self)
        ensures
            r@ == self@,
    {
        self.duplicate()
    }
}

impl Clone for CallExpression {
    fn clone(&self) -> (r: Self)
        ensures
            r@ == self@,
    {
        self.duplicate()
    }
}

// ---------------------------------------------------------------------
// Node traits
// ---------------------------------------------------------------------

/// The text of the first token of a statement.
pub open spec fn spec_statement_token_literal(statement: StatementModel) -> Seq<char> {
    match statement {
        StatementModel::Let { token, name, value } => token.literal,
        StatementModel::Return { token, value } => token.literal,
        StatementModel::Expression { token, value } => token.literal,
    }
}

/// The text of the token that an expression node was built from.
pub open spec fn spec_expression_token_literal(expression: ExpressionModel) -> Seq<char> {
    match expression {
        ExpressionModel::Identifier(identifier) => identifier.token.literal,
        ExpressionModel::IntegerLiteral { token, value } => token.literal,
        ExpressionModel::Prefix { token, operator, right } => token.literal,
        ExpressionModel::Infix { token, operator, left, right } => token.literal,
        ExpressionModel::Boolean { token, value } => token.literal,
        ExpressionModel::If { token, condition, consequence, alternative } => token.literal,
        ExpressionModel::Function(function) => function.token.literal,
        ExpressionModel::Call { token, function, arguments } => token.literal,
    }
}

/// Any node of a syntax tree, by reference.
#[derive(Debug, PartialEq, Eq)]
pub enum AST<'a> {
    Program(&'a Program),
    Statement(&'a Statements),
    BlockStatement(&'a BlockStatement),
    Expression(&'a Expression),
    Identifier(&'a Identifier),
    IntegerLiteral(&'a IntegerLiteral),
}

/// The mathematical model of a node: a program, a statement, a block or
/// an expression.
pub enum NodeModel {
    Program(ProgramModel),
    Statement(StatementModel),
    Block(BlockModel),
    Expression(ExpressionModel),
}

impl<'a> View for AST<'a> {
    type V = NodeModel;

    open spec fn view(&self) -> NodeModel {
        match self {
            AST::Program(x) => NodeModel::Program(x@),
            AST::Statement(x) => NodeModel::Statement(x@),
            AST::BlockStatement(x) => NodeModel::Block(x@),
            AST::Expression(x) => NodeModel::Expression(x@),
            AST::Identifier(x) => NodeModel::Expression(ExpressionModel::Identifier(x@)),
            AST::IntegerLiteral(x) => NodeModel::Expression(x@),
        }
    }
}

/// A node of the syntax tree knows the text of the token it was built
/// from, and can be handed on as a node of any kind.
pub trait Node {
    spec fn spec_token_literal(&self) -> Seq<char>;

    spec fn spec_ast(&self) -> NodeModel;

    fn token_literal(&self) -> (s: String)
        ensures
            s@ == self.spec_token_literal(),
    ;

    fn to_ast<'a>(&'a self) -> (ast: AST<'a>)
        ensures
            ast@ == self.spec_ast(),
    ;
}

/// Marks the nodes that are statements.
pub trait Statement: Node {
    fn statement_node();
}

/// Marks the nodes that are expressions.
pub trait Expr: Node {
    fn expression_node();
}

impl Node for Program {
    open spec fn spec_ast(&self) -> NodeModel {
        NodeModel::Program(self@)
    }

    fn to_ast<'a>(&'a self) -> (ast: AST<'a>) {
        AST::Program(self)
    }

    /// The token text of the first statement, or nothing for an empty program.
    open spec fn spec_token_literal(&self) -> Seq<char> {
        if self@.statements.len() == 0 {
            Seq::empty()
        } else {
            spec_statement_token_literal(self@.statements[0])
        }
    }

    fn token_literal(&self) -> (s: String) {
        if self.statements.len() == 0 {
            String::new()
        } else {
            self.statements[0].token_literal()
        }
    }
}

impl Node for Statements {
    open spec fn spec_ast(&self) -> NodeModel {
        NodeModel::Statement(self@)
    }

    fn to_ast<'a>(&'a self) -> (ast: AST<'a>) {
        AST::Statement(self)
    }

    open spec fn spec_token_literal(&self) -> Seq<char> {
        spec_statement_token_literal(self@)
    }

    fn token_literal(&self) -> (s: String) {
        match self {
            Statements::LetStatement(x) => x.token.literal.clone(),
            Statements::ReturnStatement(x) => x.token.literal.clone(),
            Statements::ExpressionStatement(x) => x.token.literal.clone(),
        }
    }
}

impl Node for Expression {
    open spec fn spec_ast(&self) -> NodeModel {
        NodeModel::Expression(self@)
    }

    fn to_ast<'a>(&'a self) -> (ast: AST<'a>) {
        AST::Expression(self)
    }

    open spec fn spec_token_literal(&self) -> Seq<char> {
        spec_expression_token_literal(self@)
    }

    fn token_literal(&self) -> (s: String) {
        match self {
            Expression::Identifier(x) => x.token.literal.clone(),
            Expression::IntegerLiteral(x) => x.token.literal.clone(),
            Expression::PrefixExpression(x) => x.token.literal.clone(),
            Expression::InfixExpression(x) => x.token.literal.clone(),
            Expression::Boolean(x) => x.token.literal.clone(),
            Expression::IfExpression(x) => x.token.literal.clone(),
            Expression::FunctionLiteral(x) => x.token.literal.clone(),
            Expression::CallExpression(x) => x.token.literal.clone(),
        }
    }
}

impl Node for Identifier {
    open spec fn spec_ast(&self) -> NodeModel {
        NodeModel::Expression(ExpressionModel::Identifier(self@))
    }

    fn to_ast<'a>(&'a self) -> (ast: AST<'a>) {
        AST::Identifier(self)
    }

    open spec fn spec_token_literal(&self) -> Seq<char> {
        self@.token.literal
    }

    fn token_literal(&self) -> (s: String) {
        self.token.literal.clone()
    }
}

impl Node for IntegerLiteral {
    open spec fn spec_ast(&self) -> NodeModel {
        NodeModel::Expression(self@)
    }

    fn to_ast<'a>(&'a self) -> (ast: AST<'a>) {
        AST::IntegerLiteral(self)
    }

    open spec fn spec_token_literal(&self) -> Seq<char> {
        self.token@.literal
    }

    fn token_literal(&self) -> (s: String) {
        self.token.literal.clone()
    }
}

impl Node for BlockStatement {
    open spec fn spec_token_literal(&self) -> Seq<char> {
        self@.token.literal
    }

    open spec fn spec_ast(&self) -> NodeModel {
        NodeModel::Block(self@)
    }

    fn token_literal(&self) -> (s: String) {
        self.token.literal.clone()
    }

    fn to_ast<'a>(&'a self) -> (ast: AST<'a>) {
        AST::BlockStatement(self)
    }
}

impl Statement for Statements {
    fn statement_node() {
    }
}

impl Expr for Expression {
    fn expression_node() {
    }
}

impl Expr for Identifier {
    fn expression_node() {
    }
}

impl Expr for IntegerLiteral {
    fn expression_node() {
    }
}

} // verus!
