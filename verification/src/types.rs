//! The intermediate representation that the backend lowers: values,
//! expressions, conditions, statements, blocks and definitions.

use vstd::prelude::*;
use crate::register::{Register, RegisterSize};

verus! {

/// A typed numeric literal.
#[derive(Debug, Copy, Clone, PartialEq, Eq, Structural)]
pub enum Number {
    I8(i8),
    U8(u8),
    I16(i16),
    U16(u16),
    I32(i32),
    U32(u32),
    I64(i64),
    U64(u64),
    Bool(bool),
}

/// The type of a number, without its value.
#[derive(Debug, Copy, Clone, PartialEq, Eq, Structural)]
pub enum NumberType {
    I8,
    U8,
    I16,
    U16,
    I32,
    U32,
    I64,
    U64,
    Float,
    Double,
    Bool,
}

impl NumberType {
    /// The storage width of a value of this type.
    pub open spec fn spec_size(self) -> RegisterSize {
        match self {
            NumberType::I8 | NumberType::U8 | NumberType::Bool => RegisterSize::_8Bit,
            NumberType::I16 | NumberType::U16 => RegisterSize::_16Bit,
            NumberType::I32 | NumberType::U32 | NumberType::Float => RegisterSize::_32Bit,
            NumberType::I64 | NumberType::U64 | NumberType::Double => RegisterSize::_64Bit,
        }
    }

    pub fn size(&self) -> (size: RegisterSize)
        ensures
            size == self.spec_size(),
    {
        match self {
            NumberType::I8 => RegisterSize::_8Bit,
            NumberType::U8 => RegisterSize::_8Bit,
            NumberType::I16 => RegisterSize::_16Bit,
            NumberType::U16 => RegisterSize::_16Bit,
            NumberType::I32 => RegisterSize::_32Bit,
            NumberType::U32 => RegisterSize::_32Bit,
            NumberType::I64 => RegisterSize::_64Bit,
            NumberType::U64 => RegisterSize::_64Bit,
            NumberType::Float => RegisterSize::_32Bit,
            NumberType::Double => RegisterSize::_64Bit,
            NumberType::Bool => RegisterSize::_8Bit,
        }
    }
}

impl Number {
    /// The type of this literal.
    pub open spec fn spec_number_type(self) -> NumberType {
        match self {
            Number::I8(_) => NumberType::I8,
            Number::U8(_) => NumberType::U8,
            Number::I16(_) => NumberType::I16,
            Number::U16(_) => NumberType::U16,
            Number::I32(_) => NumberType::I32,
            Number::U32(_) => NumberType::U32,
            Number::I64(_) => NumberType::I64,
            Number::U64(_) => NumberType::U64,
            Number::Bool(_) => NumberType::Bool,
        }
    }

    /// The natural width of this literal: the width of its type.
    pub open spec fn spec_size(self) -> RegisterSize {
        self.spec_number_type().spec_size()
    }

    /// The integer this literal stands for; `true` is 1 and `false` is 0.
    pub open spec fn value(self) -> int {
        match self {
            Number::I8(n) => n as int,
            Number::U8(n) => n as int,
            Number::I16(n) => n as int,
            Number::U16(n) => n as int,
            Number::I32(n) => n as int,
            Number::U32(n) => n as int,
            Number::I64(n) => n as int,
            Number::U64(n) => n as int,
            Number::Bool(b) => if b { 1 } else { 0 },
        }
    }

    pub fn number_type(&self) -> (t: NumberType)
        ensures
            t == self.spec_number_type(),
    {
        match self {
            Number::I8(_) => NumberType::I8,
            Number::U8(_) => NumberType::U8,
            Number::I16(_) => NumberType::I16,
            Number::U16(_) => NumberType::U16,
            Number::I32(_) => NumberType::I32,
            Number::U32(_) => NumberType::U32,
            Number::I64(_) => NumberType::I64,
            Number::U64(_) => NumberType::U64,
            Number::Bool(_) => NumberType::Bool,
        }
    }

    pub fn size(&self) -> (size: RegisterSize)
        ensures
            size == self.spec_size(),
    {
        self.number_type().size()
    }

    /// The integer this literal stands for.
    pub fn to_integer(&self) -> (value: i128)
        ensures
            value == self.value(),
            -0x8000_0000_0000_0000 <= value <= 0xffff_ffff_ffff_ffff,
    {
        match self {
            Number::I8(n) => *n as i128,
            Number::U8(n) => *n as i128,
            Number::I16(n) => *n as i128,
            Number::U16(n) => *n as i128,
            Number::I32(n) => *n as i128,
            Number::U32(n) => *n as i128,
            Number::I64(n) => *n as i128,
            Number::U64(n) => *n as i128,
            Number::Bool(b) => if *b {
                1
            } else {
                0
            },
        }
    }
}

/// An operand of the intermediate representation.
#[derive(Debug, PartialEq, Eq)]
pub enum Value {
    Variable(String),
    Number(Number),
    String(String),
}

/// What a `Value` stands for: its texts as sequences of characters.
pub enum ValueView {
    Variable(Seq<char>),
    Number(Number),
    String(Seq<char>),
}

impl View for Value {
    type V = ValueView;

    open spec fn view(&self) -> ValueView {
        match self {
            Value::Variable(name) => ValueView::Variable(name@),
            Value::Number(number) => ValueView::Number(*number),
            Value::String(text) => ValueView::String(text@),
        }
    }
}

/// The kind of a `Value`, without its content.
#[derive(Debug, Copy, Clone, PartialEq, Eq, Structural)]
pub enum ValueType {
    Variable,
    Number,
    String,
}

impl Value {
    pub open spec fn spec_value_type(&self) -> ValueType {
        match self {
            Value::Variable(_) => ValueType::Variable,
            Value::Number(_) => ValueType::Number,
            Value::String(_) => ValueType::String,
        }
    }

    pub fn value_type(&self) -> (t: ValueType)
        ensures
            t == self.spec_value_type(),
    {
        match self {
            Value::Variable(_) => ValueType::Variable,
            Value::Number(_) => ValueType::Number,
            Value::String(_) => ValueType::String,
        }
    }

    /// A text as a value.
    pub fn text(text: &str) -> (value: Value)
        ensures
            value@ == ValueView::String(text@),
    {
        Value::String(text.to_owned())
    }

    /// A variable as a value.
    pub fn variable(name: &str) -> (value: Value)
        ensures
            value@ == ValueView::Variable(name@),
    {
        Value::Variable(name.to_owned())
    }
}

impl Clone for Value {
    fn clone(&self) -> (copy: Value)
        ensures
            copy == *self,
    {
        match self {
            Value::Variable(name) => Value::Variable(name.clone()),
            Value::Number(number) => Value::Number(*number),
            Value::String(text) => Value::String(text.clone()),
        }
    }
}

/// One operation over one or two values, or a value alone.
///
/// An operation on two values works on its target: `target = target op
/// source`. A target that is a variable is overwritten with the result. A
/// division computes `divided / divider`.
#[derive(Debug, PartialEq, Eq)]
pub enum Expression {
    Add { target: Value, source: Value },
    Sub { target: Value, source: Value },
    Div { divider: Value, divided: Value },
    Mul { target: Value, source: Value },
    Modulo { divider: Value, divided: Value },
    ShiftLeft { target: Value, source: Value },
    ShiftRight { target: Value, source: Value },
    BitwiseNot { source: Value },
    BitwiseAnd { target: Value, source: Value },
    BitwiseOr { target: Value, source: Value },
    BitwiseXor { target: Value, source: Value },
    BitwiseNeg { source: Value },
    Inc { source: Value },
    Dec { source: Value },
    Value(Value),
}

/// What an `Expression` stands for.
pub enum ExpressionView {
    Add { target: ValueView, source: ValueView },
    Sub { target: ValueView, source: ValueView },
    Div { divider: ValueView, divided: ValueView },
    Mul { target: ValueView, source: ValueView },
    Modulo { divider: ValueView, divided: ValueView },
    ShiftLeft { target: ValueView, source: ValueView },
    ShiftRight { target: ValueView, source: ValueView },
    BitwiseNot { source: ValueView },
    BitwiseAnd { target: ValueView, source: ValueView },
    BitwiseOr { target: ValueView, source: ValueView },
    BitwiseXor { target: ValueView, source: ValueView },
    BitwiseNeg { source: ValueView },
    Inc { source: ValueView },
    Dec { source: ValueView },
    Value(ValueView),
}

impl View for Expression {
    type V = ExpressionView;

    open spec fn view(&self) -> ExpressionView {
        match self {
            Expression::Add { target, source } => ExpressionView::Add {
                target: target@,
                source: source@,
            },
            Expression::Sub { target, source } => ExpressionView::Sub {
                target: target@,
                source: source@,
            },
            Expression::Div { divider, divided } => ExpressionView::Div {
                divider: divider@,
                divided: divided@,
            },
            Expression::Mul { target, source } => ExpressionView::Mul {
                target: target@,
                source: source@,
            },
            Expression::Modulo { divider, divided } => ExpressionView::Modulo {
                divider: divider@,
                divided: divided@,
            },
            Expression::ShiftLeft { target, source } => ExpressionView::ShiftLeft {
                target: target@,
                source: source@,
            },
            Expression::ShiftRight { target, source } => ExpressionView::ShiftRight {
                target: target@,
                source: source@,
            },
            Expression::BitwiseNot { source } => ExpressionView::BitwiseNot { source: source@ },
            Expression::BitwiseAnd { target, source } => ExpressionView::BitwiseAnd {
                target: target@,
                source: source@,
            },
            Expression::BitwiseOr { target, source } => ExpressionView::BitwiseOr {
                target: target@,
                source: source@,
            },
            Expression::BitwiseXor { target, source } => ExpressionView::BitwiseXor {
                target: target@,
                source: source@,
            },
            Expression::BitwiseNeg { source } => ExpressionView::BitwiseNeg { source: source@ },
            Expression::Inc { source } => ExpressionView::Inc { source: source@ },
            Expression::Dec { source } => ExpressionView::Dec { source: source@ },
            Expression::Value(value) => ExpressionView::Value(value@),
        }
    }
}

impl Clone for Expression {
    fn clone(&self) -> (copy: Expression)
        ensures
            copy == *self,
    {
        match self {
            Expression::Add { target, source } => Expression::Add {
                target: target.clone(),
                source: source.clone(),
            },
            Expression::Sub { target, source } => Expression::Sub {
                target: target.clone(),
                source: source.clone(),
            },
            Expression::Div { divider, divided } => Expression::Div {
                divider: divider.clone(),
                divided: divided.clone(),
            },
            Expression::Mul { target, source } => Expression::Mul {
                target: target.clone(),
                source: source.clone(),
            },
            Expression::Modulo { divider, divided } => Expression::Modulo {
                divider: divider.clone(),
                divided: divided.clone(),
            },
            Expression::ShiftLeft { target, source } => Expression::ShiftLeft {
                target: target.clone(),
                source: source.clone(),
            },
            Expression::ShiftRight { target, source } => Expression::ShiftRight {
                target: target.clone(),
                source: source.clone(),
            },
            Expression::BitwiseNot { source } => Expression::BitwiseNot { source: source.clone() },
            Expression::BitwiseAnd { target, source } => Expression::BitwiseAnd {
                target: target.clone(),
                source: source.clone(),
            },
            Expression::BitwiseOr { target, source } => Expression::BitwiseOr {
                target: target.clone(),
                source: source.clone(),
            },
            Expression::BitwiseXor { target, source } => Expression::BitwiseXor {
                target: target.clone(),
                source: source.clone(),
            },
            Expression::BitwiseNeg { source } => Expression::BitwiseNeg { source: source.clone() },
            Expression::Inc { source } => Expression::Inc { source: source.clone() },
            Expression::Dec { source } => Expression::Dec { source: source.clone() },
            Expression::Value(value) => Expression::Value(value.clone()),
        }
    }
}

/// The operation of an `Expression`, without its operands.
#[derive(Debug, Copy, Clone, PartialEq, Eq, Structural)]
pub enum ExpressionDiscriminant {
    Add,
    Sub,
    Div,
    Mul,
    Modulo,
    ShiftLeft,
    ShiftRight,
    BitwiseNot,
    BitwiseAnd,
    BitwiseOr,
    BitwiseXor,
    BitwiseNeg,
    Inc,
    Dec,
    Value,
}

impl Expression {
    pub open spec fn spec_discriminant(&self) -> ExpressionDiscriminant {
        match self {
            Expression::Add { .. } => ExpressionDiscriminant::Add,
            Expression::Sub { .. } => ExpressionDiscriminant::Sub,
            Expression::Div { .. } => ExpressionDiscriminant::Div,
            Expression::Mul { .. } => ExpressionDiscriminant::Mul,
            Expression::Modulo { .. } => ExpressionDiscriminant::Modulo,
            Expression::ShiftLeft { .. } => ExpressionDiscriminant::ShiftLeft,
            Expression::ShiftRight { .. } => ExpressionDiscriminant::ShiftRight,
            Expression::BitwiseNot { .. } => ExpressionDiscriminant::BitwiseNot,
            Expression::BitwiseAnd { .. } => ExpressionDiscriminant::BitwiseAnd,
            Expression::BitwiseOr { .. } => ExpressionDiscriminant::BitwiseOr,
            Expression::BitwiseXor { .. } => ExpressionDiscriminant::BitwiseXor,
            Expression::BitwiseNeg { .. } => ExpressionDiscriminant::BitwiseNeg,
            Expression::Inc { .. } => ExpressionDiscriminant::Inc,
            Expression::Dec { .. } => ExpressionDiscriminant::Dec,
            Expression::Value(_) => ExpressionDiscriminant::Value,
        }
    }

    pub fn discriminant(&self) -> (kind: ExpressionDiscriminant)
        ensures
            kind == self.spec_discriminant(),
    {
        match self {
            Expression::Add { .. } => ExpressionDiscriminant::Add,
            Expression::Sub { .. } => ExpressionDiscriminant::Sub,
            Expression::Div { .. } => ExpressionDiscriminant::Div,
            Expression::Mul { .. } => ExpressionDiscriminant::Mul,
            Expression::Modulo { .. } => ExpressionDiscriminant::Modulo,
            Expression::ShiftLeft { .. } => ExpressionDiscriminant::ShiftLeft,
            Expression::ShiftRight { .. } => ExpressionDiscriminant::ShiftRight,
            Expression::BitwiseNot { .. } => ExpressionDiscriminant::BitwiseNot,
            Expression::BitwiseAnd { .. } => ExpressionDiscriminant::BitwiseAnd,
            Expression::BitwiseOr { .. } => ExpressionDiscriminant::BitwiseOr,
            Expression::BitwiseXor { .. } => ExpressionDiscriminant::BitwiseXor,
            Expression::BitwiseNeg { .. } => ExpressionDiscriminant::BitwiseNeg,
            Expression::Inc { .. } => ExpressionDiscriminant::Inc,
            Expression::Dec { .. } => ExpressionDiscriminant::Dec,
            Expression::Value(_) => ExpressionDiscriminant::Value,
        }
    }
}

/// A comparison of two values.
#[derive(Debug, PartialEq, Eq)]
pub enum Condition {
    Eq { left: Value, right: Value },
    Ne { left: Value, right: Value },
    Gr { left: Value, right: Value },
    Ge { left: Value, right: Value },
    Ls { left: Value, right: Value },
    Le { left: Value, right: Value },
}

/// What a `Condition` stands for: its kind and its two operands.
pub struct ConditionView {
    pub kind: ConditionDiscriminant,
    pub left: ValueView,
    pub right: ValueView,
}

impl View for Condition {
    type V = ConditionView;

    open spec fn view(&self) -> ConditionView {
        ConditionView {
            kind: self.spec_discriminant(),
            left: self.spec_left()@,
            right: self.spec_right()@,
        }
    }
}

impl Clone for Condition {
    fn clone(&self) -> (copy: Condition)
        ensures
            copy == *self,
    {
        match self {
            Condition::Eq { left, right } => Condition::Eq {
                left: left.clone(),
                right: right.clone(),
            },
            Condition::Ne { left, right } => Condition::Ne {
                left: left.clone(),
                right: right.clone(),
            },
            Condition::Gr { left, right } => Condition::Gr {
                left: left.clone(),
                right: right.clone(),
            },
            Condition::Ge { left, right } => Condition::Ge {
                left: left.clone(),
                right: right.clone(),
            },
            Condition::Ls { left, right } => Condition::Ls {
                left: left.clone(),
                right: right.clone(),
            },
            Condition::Le { left, right } => Condition::Le {
                left: left.clone(),
                right: right.clone(),
            },
        }
    }
}

/// The comparison of a `Condition`, without its operands.
#[derive(Debug, Copy, Clone, PartialEq, Eq, Structural)]
pub enum ConditionDiscriminant {
    Eq,
    Ne,
    Gr,
    Ge,
    Ls,
    Le,
}

impl Condition {
    pub open spec fn spec_discriminant(&self) -> ConditionDiscriminant {
        match self {
            Condition::Eq { .. } => ConditionDiscriminant::Eq,
            Condition::Ne { .. } => ConditionDiscriminant::Ne,
            Condition::Gr { .. } => ConditionDiscriminant::Gr,
            Condition::Ge { .. } => ConditionDiscriminant::Ge,
            Condition::Ls { .. } => ConditionDiscriminant::Ls,
            Condition::Le { .. } => ConditionDiscriminant::Le,
        }
    }

    /// The left operand.
    pub open spec fn spec_left(&self) -> Value {
        match self {
            Condition::Eq { left, .. } => *left,
            Condition::Ne { left, .. } => *left,
            Condition::Gr { left, .. } => *left,
            Condition::Ge { left, .. } => *left,
            Condition::Ls { left, .. } => *left,
            Condition::Le { left, .. } => *left,
        }
    }

    /// The right operand.
    pub open spec fn spec_right(&self) -> Value {
        match self {
            Condition::Eq { right, .. } => *right,
            Condition::Ne { right, .. } => *right,
            Condition::Gr { right, .. } => *right,
            Condition::Ge { right, .. } => *right,
            Condition::Ls { right, .. } => *right,
            Condition::Le { right, .. } => *right,
        }
    }

    pub fn discriminant(&self) -> (kind: ConditionDiscriminant)
        ensures
            kind == self.spec_discriminant(),
    {
        match self {
            Condition::Eq { .. } => ConditionDiscriminant::Eq,
            Condition::Ne { .. } => ConditionDiscriminant::Ne,
            Condition::Gr { .. } => ConditionDiscriminant::Gr,
            Condition::Ge { .. } => ConditionDiscriminant::Ge,
            Condition::Ls { .. } => ConditionDiscriminant::Ls,
            Condition::Le { .. } => ConditionDiscriminant::Le,
        }
    }

    pub fn left(&self) -> (value: &Value)
        ensures
            *value == self.spec_left(),
    {
        match self {
            Condition::Eq { left, .. } => left,
            Condition::Ne { left, .. } => left,
            Condition::Gr { left, .. } => left,
            Condition::Ge { left, .. } => left,
            Condition::Ls { left, .. } => left,
            Condition::Le { left, .. } => left,
        }
    }

    pub fn right(&self) -> (value: &Value)
        ensures
            *value == self.spec_right(),
    {
        match self {
            Condition::Eq { right, .. } => right,
            Condition::Ne { right, .. } => right,
            Condition::Gr { right, .. } => right,
            Condition::Ge { right, .. } => right,
            Condition::Ls { right, .. } => right,
            Condition::Le { right, .. } => right,
        }
    }
}

/// One step of a block. The variadic mark of a call is carried along; the
/// code of the call does not depend on it.
#[derive(Debug, PartialEq, Eq)]
pub enum Statement {
    Assign { name: String, assigne: Expression },
    If { condition: Condition, true_block: Block, false_block: Option<Block> },
    Print { format: String, arguments: Vec<Value> },
    Call { name: String, arguments: Vec<Value>, assign: Option<String>, is_variadic: bool },
    Return(Option<Value>),
}

/// Statements in the order in which they run.
#[derive(Debug, PartialEq, Eq)]
pub struct Block {
    pub items: Vec<Statement>,
}

/// A parameter of a function: its name and the type that fixes its width.
#[derive(Debug, PartialEq, Eq)]
pub struct Parameter {
    pub name: String,
    pub param_type: NumberType,
}

/// What a `Statement` stands for.
pub enum StatementView {
    Assign { name: Seq<char>, assigne: ExpressionView },
    If {
        condition: ConditionView,
        true_block: Seq<StatementView>,
        false_block: Option<Seq<StatementView>>,
    },
    Print { format: Seq<char>, arguments: Seq<ValueView> },
    Call {
        name: Seq<char>,
        arguments: Seq<ValueView>,
        assign: Option<Seq<char>>,
        is_variadic: bool,
    },
    Return(Option<ValueView>),
}

/// What a `Parameter` stands for.
pub struct ParameterView {
    pub name: Seq<char>,
    pub param_type: NumberType,
}

/// What a `Definition` stands for.
pub enum DefinitionView {
    Function { name: Seq<char>, parameters: Seq<ParameterView>, block: Seq<StatementView> },
}

/// What `statement` stands for.
pub open spec fn statement_view(statement: Statement) -> StatementView
    decreases statement, 0int,
{
    match statement {
        Statement::Assign { name, assigne } => StatementView::Assign {
            name: name@,
            assigne: assigne@,
        },
        Statement::If { condition, true_block, false_block } => StatementView::If {
            condition: condition@,
            true_block: statements_view(true_block.items@, true_block.items@.len() as int),
            false_block: match false_block {
                Some(false_block) => Some(
                    statements_view(false_block.items@, false_block.items@.len() as int),
                ),
                None => None,
            },
        },
        Statement::Print { format, arguments } => StatementView::Print {
            format: format@,
            arguments: values_view(arguments@),
        },
        Statement::Call { name, arguments, assign, is_variadic } => StatementView::Call {
            name: name@,
            arguments: values_view(arguments@),
            assign: match assign {
                Some(variable) => Some(variable@),
                None => None,
            },
            is_variadic,
        },
        Statement::Return(value) => StatementView::Return(optional_value_view(value)),
    }
}

/// What the first `count` of `items` stand for, in their order.
pub open spec fn statements_view(items: Seq<Statement>, count: int) -> Seq<StatementView>
    decreases items, count,
{
    if count <= 0 || count > items.len() {
        Seq::empty()
    } else {
        statements_view(items, count - 1).push(statement_view(items[count - 1]))
    }
}

impl View for Statement {
    type V = StatementView;

    open spec fn view(&self) -> StatementView {
        statement_view(*self)
    }
}

impl View for Block {
    type V = Seq<StatementView>;

    open spec fn view(&self) -> Seq<StatementView> {
        statements_view(self.items@, self.items@.len() as int)
    }
}

impl View for Parameter {
    type V = ParameterView;

    open spec fn view(&self) -> ParameterView {
        ParameterView { name: self.name@, param_type: self.param_type }
    }
}

/// The view of each parameter of a sequence.
pub open spec fn parameters_view(parameters: Seq<Parameter>) -> Seq<ParameterView> {
    Seq::new(parameters.len(), |i: int| parameters[i]@)
}

impl View for Definition {
    type V = DefinitionView;

    open spec fn view(&self) -> DefinitionView {
        match self {
            Definition::Function { name, parameters, block } => DefinitionView::Function {
                name: name@,
                parameters: parameters_view(parameters@),
                block: block@,
            },
        }
    }
}

impl Clone for Definition {
    fn clone(&self) -> (copy: Definition)
        ensures
            copy@ == self@,
    {
        match self {
            Definition::Function { name, parameters, block } => {
                let mut copied: Vec<Parameter> = Vec::new();
                let mut index: usize = 0;
                while index < parameters.len()
                    invariant
                        index <= parameters.len(),
                        copied@.len() == index,
                        forall|i: int| 0 <= i < index ==> (#[trigger] copied@[i])@ == parameters@[i]@,
                    decreases parameters.len() - index,
                {
                    copied.push(parameters[index].clone());
                    index += 1;
                }
                assert(parameters_view(copied@) =~= parameters_view(parameters@));
                Definition::Function {
                    name: name.clone(),
                    parameters: copied,
                    block: block.clone(),
                }
            },
        }
    }
}

/// The view of each definition of a sequence.
pub open spec fn definitions_view(definitions: Seq<Definition>) -> Seq<DefinitionView> {
    Seq::new(definitions.len(), |i: int| definitions[i]@)
}

/// The statements that a block stands for are what its statements stand
/// for, one for one.
pub proof fn lemma_statements_view(items: Seq<Statement>, count: int)
    requires
        0 <= count <= items.len(),
    ensures
        statements_view(items, count).len() == count,
        forall|i: int| 0 <= i < count ==> #[trigger] statements_view(items, count)[i] == items[i]@,
    decreases count,
{
    if count > 0 {
        lemma_statements_view(items, count - 1);
    }
}

/// A copy of each value of a sequence.
pub fn clone_values(values: &Vec<Value>) -> (copy: Vec<Value>)
    ensures
        values_view(copy@) == values_view(values@),
{
    let mut copy: Vec<Value> = Vec::new();
    let mut index: usize = 0;
    while index < values.len()
        invariant
            index <= values.len(),
            copy@.len() == index,
            forall|i: int| 0 <= i < index ==> (#[trigger] copy@[i])@ == values@[i]@,
        decreases values.len() - index,
    {
        copy.push(values[index].clone());
        index += 1;
    }
    assert(values_view(copy@) =~= values_view(values@));
    copy
}

impl Clone for Statement {
    fn clone(&self) -> (copy: Statement)
        ensures
            copy@ == self@,
        decreases self,
    {
        match self {
            Statement::Assign { name, assigne } => Statement::Assign {
                name: name.clone(),
                assigne: assigne.clone(),
            },
            Statement::If { condition, true_block, false_block } => Statement::If {
                condition: condition.clone(),
                true_block: true_block.clone(),
                false_block: match false_block {
                    Some(false_block) => Some(false_block.clone()),
                    None => None,
                },
            },
            Statement::Print { format, arguments } => Statement::Print {
                format: format.clone(),
                arguments: clone_values(arguments),
            },
            Statement::Call { name, arguments, assign, is_variadic } => Statement::Call {
                name: name.clone(),
                arguments: clone_values(arguments),
                assign: match assign {
                    Some(variable) => Some(variable.clone()),
                    None => None,
                },
                is_variadic: *is_variadic,
            },
            Statement::Return(value) => Statement::Return(
                match value {
                    Some(value) => Some(value.clone()),
                    None => None,
                },
            ),
        }
    }
}

impl Clone for Block {
    fn clone(&self) -> (copy: Block)
        ensures
            copy@ == self@,
        decreases self,
    {
        let mut items: Vec<Statement> = Vec::new();
        let mut index: usize = 0;
        while index < self.items.len()
            invariant
                index <= self.items.len(),
                items@.len() == index,
                forall|i: int| 0 <= i < index ==> (#[trigger] items@[i])@ == self.items@[i]@,
            decreases self.items.len() - index,
        {
            items.push(self.items[index].clone());
            index += 1;
        }
        let copy = Block { items };
        proof {
            lemma_statements_view(copy.items@, copy.items@.len() as int);
            lemma_statements_view(self.items@, self.items@.len() as int);
            assert(copy@ =~= self@);
        }
        copy
    }
}

impl Clone for Parameter {
    fn clone(&self) -> (copy: Parameter)
        ensures
            copy == *self,
    {
        Parameter { name: self.name.clone(), param_type: self.param_type }
    }
}

/// One compiled routine.
#[derive(Debug, PartialEq, Eq)]
pub enum Definition {
    Function { name: String, parameters: Vec<Parameter>, block: Block },
}

/// The conventions by which a call can pass its arguments.
#[derive(Debug, Copy, Clone, PartialEq, Eq, Structural)]
pub enum CallingConventions {
    Systemv,
    Microsoft,
    Arm,
}

/// The view of each value of a sequence.
pub open spec fn values_view(values: Seq<Value>) -> Seq<ValueView> {
    Seq::new(values.len(), |i: int| values[i]@)
}

/// The view of a value that may be absent.
pub open spec fn optional_value_view(value: Option<Value>) -> Option<ValueView> {
    match value {
        Some(value) => Some(value@),
        None => None,
    }
}

/// The registers that carry the leading arguments of a call, in order.
#[derive(Debug, PartialEq, Eq)]
pub struct ProcedureCall {
    pub convention: CallingConventions,
    pub registers: Vec<Register>,
}

impl ProcedureCall {
    pub fn new(convention: CallingConventions, registers: Vec<Register>) -> (call: Self)
        ensures
            call.convention == convention,
            call.registers == registers,
    {
        Self { convention, registers }
    }

    /// The register of the argument at `index`, if the convention passes it in one.
    pub open spec fn spec_register(&self, index: int) -> Option<Register> {
        if 0 <= index < self.registers@.len() {
            Some(self.registers@[index])
        } else {
            None
        }
    }

    pub fn get_register(&self, index: usize) -> (register: Option<Register>)
        ensures
            register == self.spec_register(index as int),
    {
        if index < self.registers.len() {
            Some(self.registers[index])
        } else {
            None
        }
    }
}

impl From<i8> for Number {
    fn from(value: i8) -> (number: Number) {
        Number::I8(value)
    }
}

impl vstd::std_specs::convert::FromSpecImpl<i8> for Number {
    open spec fn obeys_from_spec() -> bool {
        true
    }

    open spec fn from_spec(value: i8) -> Number {
        Number::I8(value)
    }
}

impl From<u8> for Number {
    fn from(value: u8) -> (number: Number) {
        Number::U8(value)
    }
}

impl vstd::std_specs::convert::FromSpecImpl<u8> for Number {
    open spec fn obeys_from_spec() -> bool {
        true
    }

    open spec fn from_spec(value: u8) -> Number {
        Number::U8(value)
    }
}

impl From<i16> for Number {
    fn from(value: i16) -> (number: Number) {
        Number::I16(value)
    }
}

impl vstd::std_specs::convert::FromSpecImpl<i16> for Number {
    open spec fn obeys_from_spec() -> bool {
        true
    }

    open spec fn from_spec(value: i16) -> Number {
        Number::I16(value)
    }
}

impl From<u16> for Number {
    fn from(value: u16) -> (number: Number) {
        Number::U16(value)
    }
}

impl vstd::std_specs::convert::FromSpecImpl<u16> for Number {
    open spec fn obeys_from_spec() -> bool {
        true
    }

    open spec fn from_spec(value: u16) -> Number {
        Number::U16(value)
    }
}

impl From<i32> for Number {
    fn from(value: i32) -> (number: Number) {
        Number::I32(value)
    }
}

impl vstd::std_specs::convert::FromSpecImpl<i32> for Number {
    open spec fn obeys_from_spec() -> bool {
        true
    }

    open spec fn from_spec(value: i32) -> Number {
        Number::I32(value)
    }
}

impl From<u32> for Number {
    fn from(value: u32) -> (number: Number) {
        Number::U32(value)
    }
}

impl vstd::std_specs::convert::FromSpecImpl<u32> for Number {
    open spec fn obeys_from_spec() -> bool {
        true
    }

    open spec fn from_spec(value: u32) -> Number {
        Number::U32(value)
    }
}

impl From<i64> for Number {
    fn from(value: i64) -> (number: Number) {
        Number::I64(value)
    }
}

impl vstd::std_specs::convert::FromSpecImpl<i64> for Number {
    open spec fn obeys_from_spec() -> bool {
        true
    }

    open spec fn from_spec(value: i64) -> Number {
        Number::I64(value)
    }
}

impl From<u64> for Number {
    fn from(value: u64) -> (number: Number) {
        Number::U64(value)
    }
}

impl vstd::std_specs::convert::FromSpecImpl<u64> for Number {
    open spec fn obeys_from_spec() -> bool {
        true
    }

    open spec fn from_spec(value: u64) -> Number {
        Number::U64(value)
    }
}

impl From<bool> for Number {
    fn from(value: bool) -> (number: Number) {
        Number::Bool(value)
    }
}

impl vstd::std_specs::convert::FromSpecImpl<bool> for Number {
    open spec fn obeys_from_spec() -> bool {
        true
    }

    open spec fn from_spec(value: bool) -> Number {
        Number::Bool(value)
    }
}

impl From<i8> for Value {
    fn from(value: i8) -> (converted: Value) {
        Value::Number(Number::I8(value))
    }
}

impl vstd::std_specs::convert::FromSpecImpl<i8> for Value {
    open spec fn obeys_from_spec() -> bool {
        true
    }

    open spec fn from_spec(value: i8) -> Value {
        Value::Number(Number::I8(value))
    }
}

impl From<u8> for Value {
    fn from(value: u8) -> (converted: Value) {
        Value::Number(Number::U8(value))
    }
}

impl vstd::std_specs::convert::FromSpecImpl<u8> for Value {
    open spec fn obeys_from_spec() -> bool {
        true
    }

    open spec fn from_spec(value: u8) -> Value {
        Value::Number(Number::U8(value))
    }
}

impl From<i16> for Value {
    fn from(value: i16) -> (converted: Value) {
        Value::Number(Number::I16(value))
    }
}

impl vstd::std_specs::convert::FromSpecImpl<i16> for Value {
    open spec fn obeys_from_spec() -> bool {
        true
    }

    open spec fn from_spec(value: i16) -> Value {
        Value::Number(Number::I16(value))
    }
}

impl From<u16> for Value {
    fn from(value: u16) -> (converted: Value) {
        Value::Number(Number::U16(value))
    }
}

impl vstd::std_specs::convert::FromSpecImpl<u16> for Value {
    open spec fn obeys_from_spec() -> bool {
        true
    }

    open spec fn from_spec(value: u16) -> Value {
        Value::Number(Number::U16(value))
    }
}

impl From<i32> for Value {
    fn from(value: i32) -> (converted: Value) {
        Value::Number(Number::I32(value))
    }
}

impl vstd::std_specs::convert::FromSpecImpl<i32> for Value {
    open spec fn obeys_from_spec() -> bool {
        true
    }

    open spec fn from_spec(value: i32) -> Value {
        Value::Number(Number::I32(value))
    }
}

impl From<u32> for Value {
    fn from(value: u32) -> (converted: Value) {
        Value::Number(Number::U32(value))
    }
}

impl vstd::std_specs::convert::FromSpecImpl<u32> for Value {
    open spec fn obeys_from_spec() -> bool {
        true
    }

    open spec fn from_spec(value: u32) -> Value {
        Value::Number(Number::U32(value))
    }
}

impl From<i64> for Value {
    fn from(value: i64) -> (converted: Value) {
        Value::Number(Number::I64(value))
    }
}

impl vstd::std_specs::convert::FromSpecImpl<i64> for Value {
    open spec fn obeys_from_spec() -> bool {
        true
    }

    open spec fn from_spec(value: i64) -> Value {
        Value::Number(Number::I64(value))
    }
}

impl From<u64> for Value {
    fn from(value: u64) -> (converted: Value) {
        Value::Number(Number::U64(value))
    }
}

impl vstd::std_specs::convert::FromSpecImpl<u64> for Value {
    open spec fn obeys_from_spec() -> bool {
        true
    }

    open spec fn from_spec(value: u64) -> Value {
        Value::Number(Number::U64(value))
    }
}

impl From<bool> for Value {
    fn from(value: bool) -> (converted: Value) {
        Value::Number(Number::Bool(value))
    }
}

impl vstd::std_specs::convert::FromSpecImpl<bool> for Value {
    open spec fn obeys_from_spec() -> bool {
        true
    }

    open spec fn from_spec(value: bool) -> Value {
        Value::Number(Number::Bool(value))
    }
}

impl From<String> for Value {
    fn from(value: String) -> (converted: Value) {
        Value::String(value)
    }
}

impl vstd::std_specs::convert::FromSpecImpl<String> for Value {
    open spec fn obeys_from_spec() -> bool {
        true
    }

    open spec fn from_spec(value: String) -> Value {
        Value::String(value)
    }
}

} // verus!
