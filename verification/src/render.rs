//! The source text of a generated predicate.

use crate::error::{ErrorModel, GenerationError};
use crate::predicate::{
    arm_models, operand_models, Arm, ArmModel, Body, BodyModel, Family, GeneratedPredicate,
    Operand, OperandModel, PatternKind, PredicateModel,
};
use crate::shape::texts;
use vstd::prelude::*;

verus! {

/// The character of a decimal digit; that of nine for a number above nine.
pub open spec fn digit(d: nat) -> char {
    if d == 0 {
        '0'
    } else if d == 1 {
        '1'
    } else if d == 2 {
        '2'
    } else if d == 3 {
        '3'
    } else if d == 4 {
        '4'
    } else if d == 5 {
        '5'
    } else if d == 6 {
        '6'
    } else if d == 7 {
        '7'
    } else if d == 8 {
        '8'
    } else {
        '9'
    }
}

/// A number in decimal notation, without leading zeros.
pub open spec fn decimal(n: nat) -> Seq<char>
    decreases n,
{
    if n < 10 {
        seq![digit(n)]
    } else {
        decimal(n / 10).push(digit(n % 10))
    }
}

/// The name of a family's trait.
pub open spec fn trait_name(family: Family) -> Seq<char> {
    match family {
        Family::IsEmpty => "IsEmpty"@,
        Family::IsDefault => "IsDefault"@,
    }
}

/// The name of a family's method.
pub open spec fn method_name(family: Family) -> Seq<char> {
    match family {
        Family::IsEmpty => "is_empty"@,
        Family::IsDefault => "is_default"@,
    }
}

/// How an operand is written: as a member of `self`, or as the name that an
/// arm's pattern binds it to.
pub open spec fn operand_text(operand: OperandModel, bound: bool) -> Seq<char> {
    match operand {
        OperandModel::Named { name } => if bound {
            name
        } else {
            "self."@ + name
        },
        OperandModel::Indexed { index } => if bound {
            "_f"@ + decimal(index)
        } else {
            "self."@ + decimal(index)
        },
    }
}

/// The call of the family's method on an operand.
pub open spec fn call_text(operand: OperandModel, bound: bool, family: Family) -> Seq<char> {
    operand_text(operand, bound) + "."@ + method_name(family) + "()"@
}

/// The first `n` calls, joined by `&&`.
pub open spec fn calls_text(operands: Seq<OperandModel>, bound: bool, family: Family, n: int) -> Seq<
    char,
>
    decreases n,
{
    if n <= 0 {
        Seq::empty()
    } else if n == 1 {
        call_text(operands[0], bound, family)
    } else {
        calls_text(operands, bound, family, n - 1) + " && "@ + call_text(
            operands[n - 1],
            bound,
            family,
        )
    }
}

/// A conjunction: `true` where it has no operand, else its calls joined by
/// `&&` in order.
pub open spec fn condition_text(operands: Seq<OperandModel>, bound: bool, family: Family) -> Seq<
    char,
> {
    if operands.len() == 0 {
        "true"@
    } else {
        calls_text(operands, bound, family, operands.len() as int)
    }
}

/// The first `n` bindings of a pattern, joined by commas.
pub open spec fn bindings_text(operands: Seq<OperandModel>, n: int) -> Seq<char>
    decreases n,
{
    if n <= 0 {
        Seq::empty()
    } else if n == 1 {
        operand_text(operands[0], true)
    } else {
        bindings_text(operands, n - 1) + ", "@ + operand_text(operands[n - 1], true)
    }
}

/// The pattern of an arm.
pub open spec fn pattern_text(arm: ArmModel) -> Seq<char> {
    match arm.pattern {
        PatternKind::Unit => "Self::"@ + arm.variant,
        PatternKind::Tuple => "Self::"@ + arm.variant + "("@ + bindings_text(
            arm.condition,
            arm.condition.len() as int,
        ) + ")"@,
        PatternKind::Struct => if arm.condition.len() == 0 {
            "Self::"@ + arm.variant + " {}"@
        } else {
            "Self::"@ + arm.variant + " { "@ + bindings_text(
                arm.condition,
                arm.condition.len() as int,
            ) + " }"@
        },
    }
}

/// An arm: its pattern, and its condition in braces.
pub open spec fn arm_text(arm: ArmModel, family: Family) -> Seq<char> {
    pattern_text(arm) + " => { "@ + condition_text(arm.condition, true, family) + " }"@
}

/// The first `n` arms, each followed by a comma.
pub open spec fn arms_text(arms: Seq<ArmModel>, family: Family, n: int) -> Seq<char>
    decreases n,
{
    if n <= 0 {
        Seq::empty()
    } else {
        arms_text(arms, family, n - 1) + arm_text(arms[n - 1], family) + ", "@
    }
}

/// The catch-all arm, where there is one.
pub open spec fn catch_all_text(catch_all: bool) -> Seq<char> {
    if catch_all {
        "_ => false, "@
    } else {
        Seq::empty()
    }
}

/// A body as an expression.
pub open spec fn body_text(body: BodyModel, family: Family) -> Seq<char> {
    match body {
        BodyModel::Conjunction { operands } => condition_text(operands, false, family),
        BodyModel::Dispatch { arms, catch_all } => "match self { "@ + arms_text(
            arms,
            family,
            arms.len() as int,
        ) + catch_all_text(catch_all) + "}"@,
        BodyModel::EqualsDefault => "self == &<Self as ::core::default::Default>::default()"@,
    }
}

/// A predicate as the implementation of its family's trait for its type.
pub open spec fn impl_text(p: PredicateModel) -> Seq<char> {
    "impl ::isx::"@ + trait_name(p.family) + " for "@ + p.owning_type + " { fn "@ + method_name(
        p.family,
    ) + "(&self) -> bool { "@ + body_text(p.body, p.family) + " } }"@
}

/// The first `n` names, joined by commas.
pub open spec fn names_text(names: Seq<Seq<char>>, n: int) -> Seq<char>
    decreases n,
{
    if n <= 0 {
        Seq::empty()
    } else if n == 1 {
        names[0]
    } else {
        names_text(names, n - 1) + ", "@ + names[n - 1]
    }
}

/// What a failure says, for the family whose generation failed.
pub open spec fn message_text(error: ErrorModel, family: Family) -> Seq<char> {
    match error {
        ErrorModel::UnsupportedShape => trait_name(family)
            + " can only be derived for structs and enums"@,
        ErrorModel::MultipleDefaultMarkers { variants } => "Multiple #[default] variants found: "@
            + names_text(variants, variants.len() as int),
    }
}

/// A failure as a diagnostic that stops the build.
pub open spec fn diagnostic_text(error: ErrorModel, family: Family) -> Seq<char> {
    "::core::compile_error! { \""@ + message_text(error, family) + "\" }"@
}

/// Writes one decimal digit; a number above nine is written as nine.
pub fn digit_text(d: usize) -> (r: &'static str)
    ensures
        r@ == seq![digit(d as nat)],
{
    proof {
        reveal_strlit("0");
        reveal_strlit("1");
        reveal_strlit("2");
        reveal_strlit("3");
        reveal_strlit("4");
        reveal_strlit("5");
        reveal_strlit("6");
        reveal_strlit("7");
        reveal_strlit("8");
        reveal_strlit("9");
    }
    if d == 0 {
        "0"
    } else if d == 1 {
        "1"
    } else if d == 2 {
        "2"
    } else if d == 3 {
        "3"
    } else if d == 4 {
        "4"
    } else if d == 5 {
        "5"
    } else if d == 6 {
        "6"
    } else if d == 7 {
        "7"
    } else if d == 8 {
        "8"
    } else {
        "9"
    }
}

/// Writes a number in decimal notation.
pub fn decimal_text(n: usize) -> (r: String)
    ensures
        r@ == decimal(n as nat),
    decreases n,
{
    if n < 10 {
        String::from_str(digit_text(n))
    } else {
        let mut out = decimal_text(n / 10);
        out.append(digit_text(n % 10));
        out
    }
}

/// Gives the name of a family's trait.
pub fn trait_name_of(family: Family) -> (r: &'static str)
    ensures
        r@ == trait_name(family),
{
    match family {
        Family::IsEmpty => "IsEmpty",
        Family::IsDefault => "IsDefault",
    }
}

/// Gives the name of a family's method.
pub fn method_name_of(family: Family) -> (r: &'static str)
    ensures
        r@ == method_name(family),
{
    match family {
        Family::IsEmpty => "is_empty",
        Family::IsDefault => "is_default",
    }
}

/// Writes an operand.
pub fn render_operand(operand: &Operand, bound: bool) -> (r: String)
    ensures
        r@ == operand_text(operand@, bound),
{
    let mut out = String::new();
    match operand {
        Operand::Named { name } => {
            if !bound {
                out.append("self.");
            }
            out.append(name.as_str());
        },
        Operand::Indexed { index } => {
            if bound {
                out.append("_f");
            } else {
                out.append("self.");
            }
            let number = decimal_text(*index);
            out.append(number.as_str());
        },
    }
    out
}

/// Writes the call of the family's method on an operand.
pub fn render_call(operand: &Operand, bound: bool, family: Family) -> (r: String)
    ensures
        r@ == call_text(operand@, bound, family),
{
    let mut out = render_operand(operand, bound);
    out.append(".");
    out.append(method_name_of(family));
    out.append("()");
    out
}

/// Writes a conjunction.
pub fn render_condition(operands: &Vec<Operand>, bound: bool, family: Family) -> (r: String)
    ensures
        r@ == condition_text(operand_models(operands@), bound, family),
{
    if operands.len() == 0 {
        return String::from_str("true");
    }
    let ghost models = operand_models(operands@);
    let mut out = render_call(&operands[0], bound, family);
    let mut i: usize = 1;
    while i < operands.len()
        invariant
            1 <= i <= operands.len(),
            models == operand_models(operands@),
            out@ == calls_text(models, bound, family, i as int),
        decreases operands.len() - i,
    {
        let call = render_call(&operands[i], bound, family);
        out.append(" && ");
        out.append(call.as_str());
        i += 1;
    }
    out
}

/// Writes the bindings of a pattern.
pub fn render_bindings(operands: &Vec<Operand>) -> (r: String)
    ensures
        r@ == bindings_text(operand_models(operands@), operands.len() as int),
{
    if operands.len() == 0 {
        return String::new();
    }
    let ghost models = operand_models(operands@);
    let mut out = render_operand(&operands[0], true);
    let mut i: usize = 1;
    while i < operands.len()
        invariant
            1 <= i <= operands.len(),
            models == operand_models(operands@),
            out@ == bindings_text(models, i as int),
        decreases operands.len() - i,
    {
        let binding = render_operand(&operands[i], true);
        out.append(", ");
        out.append(binding.as_str());
        i += 1;
    }
    out
}

/// Writes an arm.
pub fn render_arm(arm: &Arm, family: Family) -> (r: String)
    ensures
        r@ == arm_text(arm@, family),
{
    let mut out = String::from_str("Self::");
    out.append(arm.variant.as_str());
    match arm.pattern {
        PatternKind::Unit => {},
        PatternKind::Tuple => {
            let bindings = render_bindings(&arm.condition);
            out.append("(");
            out.append(bindings.as_str());
            out.append(")");
        },
        PatternKind::Struct => {
            if arm.condition.len() == 0 {
                out.append(" {}");
            } else {
                let bindings = render_bindings(&arm.condition);
                out.append(" { ");
                out.append(bindings.as_str());
                out.append(" }");
            }
        },
    }
    let condition = render_condition(&arm.condition, true, family);
    out.append(" => { ");
    out.append(condition.as_str());
    out.append(" }");
    out
}

/// Writes the names of variants, joined by commas.
pub fn render_names(names: &Vec<String>) -> (r: String)
    ensures
        r@ == names_text(texts(names@), names.len() as int),
{
    if names.len() == 0 {
        return String::new();
    }
    let mut out = names[0].clone();
    let mut i: usize = 1;
    while i < names.len()
        invariant
            1 <= i <= names.len(),
            out@ == names_text(texts(names@), i as int),
        decreases names.len() - i,
    {
        out.append(", ");
        out.append(names[i].as_str());
        i += 1;
    }
    out
}

impl Body {
    /// Writes the body as an expression of the given family.
    pub fn render(&self, family: Family) -> (r: String)
        ensures
            r@ == body_text(self@, family),
    {
        match self {
            Body::Conjunction { operands } => render_condition(operands, false, family),
            Body::Dispatch { arms, catch_all } => {
                let ghost models = arm_models(arms@);
                let mut out = String::from_str("match self { ");
                let ghost head = out@;
                let mut i: usize = 0;
                while i < arms.len()
                    invariant
                        i <= arms.len(),
                        models == arm_models(arms@),
                        out@ == head + arms_text(models, family, i as int),
                    decreases arms.len() - i,
                {
                    let arm = render_arm(&arms[i], family);
                    out.append(arm.as_str());
                    out.append(", ");
                    i += 1;
                }
                if *catch_all {
                    out.append("_ => false, ");
                }
                out.append("}");
                out
            },
            Body::EqualsDefault => String::from_str(
                "self == &<Self as ::core::default::Default>::default()",
            ),
        }
    }
}

impl GeneratedPredicate {
    /// Writes the predicate as the implementation of its family's trait for
    /// its type.
    pub fn render(&self) -> (r: String)
        ensures
            r@ == impl_text(self@),
    {
        let body = self.body.render(self.family);
        let mut out = String::from_str("impl ::isx::");
        out.append(trait_name_of(self.family));
        out.append(" for ");
        out.append(self.owning_type.as_str());
        out.append(" { fn ");
        out.append(method_name_of(self.family));
        out.append("(&self) -> bool { ");
        out.append(body.as_str());
        out.append(" } }");
        out
    }
}

impl GenerationError {
    /// Says what failed, for the family whose generation failed.
    pub fn message(&self, family: Family) -> (r: String)
        ensures
            r@ == message_text(self@, family),
    {
        match self {
            GenerationError::UnsupportedShape => {
                let mut out = String::from_str(trait_name_of(family));
                out.append(" can only be derived for structs and enums");
                out
            },
            GenerationError::MultipleDefaultMarkers { variants } => {
                let names = render_names(variants);
                let mut out = String::from_str("Multiple #[default] variants found: ");
                out.append(names.as_str());
                out
            },
        }
    }

    /// Writes the failure as a diagnostic that stops the build.
    pub fn diagnostic(&self, family: Family) -> (r: String)
        ensures
            r@ == diagnostic_text(self@, family),
    {
        let message = self.message(family);
        let mut out = String::from_str("::core::compile_error! { \"");
        out.append(message.as_str());
        out.append("\" }");
        out
    }
}

} // verus!
