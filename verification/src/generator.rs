//! From definitions to assembly text.

use vstd::prelude::*;
use crate::compiler::definition::{
    weigh_definition,
    defined,
    definition_code,
    definition_weight,
    X86DefinitionCompiler,
};
use crate::compiler::error::{ErrorView, X86Error};
use crate::compiler::progress::lemma_jumps_land;
use crate::compiler::state::{appends, lands, lemma_appends_chain, Failure};
use crate::context::{ApplicationContext, ContextView, DataItemCollection, DataItemView};
use crate::store::MAX_FRAME_SIZE;
use crate::syntax::{program_text, TBSyntaxGenerator};
use crate::tool::defs::{os_defs, TargetOs};
use crate::types::{definitions_view, Definition, DefinitionView};

verus! {

/// The context after the first `count` definitions are compiled, in their order.
pub open spec fn definitions_code(definitions: Seq<DefinitionView>, count: int, context: ContextView) -> Result<ContextView, Failure>
    decreases count,
{
    if count <= 0 || count > definitions.len() {
        Ok(context)
    } else {
        match definitions_code(definitions, count - 1, context) {
            Err(error) => Err(error),
            Ok(after) => definition_code(definitions[count - 1], after),
        }
    }
}

/// The weights of the first `count` definitions, summed.
pub open spec fn definitions_weight(definitions: Seq<DefinitionView>, count: int) -> nat
    decreases count,
{
    if count <= 0 || count > definitions.len() {
        0
    } else {
        definitions_weight(definitions, count - 1) + definition_weight(definitions[count - 1])
    }
}

/// Every function's frame stays within 32-bit offsets, and the branch
/// labels can be counted on from the number `labels` already handed out.
pub open spec fn definitions_fit(definitions: Seq<DefinitionView>, labels: nat) -> bool {
    &&& forall|i: int|
        0 <= i < definitions.len() ==> 8 * #[trigger] definition_weight(definitions[i])
            <= MAX_FRAME_SIZE
    &&& labels + definitions_weight(definitions, definitions.len() as int) <= usize::MAX
}

/// Every function's frame stays within 32-bit offsets, and the branch
/// labels of the whole program can be counted.
pub open spec fn program_fits(definitions: Seq<DefinitionView>) -> bool {
    definitions_fit(definitions, 0)
}

/// What a whole program emits: the context after all its definitions are
/// compiled, starting from nothing but the given data.
pub open spec fn program_code(os: TargetOs, definitions: Seq<DefinitionView>, datas: Seq<DataItemView>) -> Result<ContextView, Failure> {
    definitions_code(definitions, definitions.len() as int, ContextView::initial(os, datas))
}

/// The assembly text of a whole program.
pub open spec fn assembly(os: TargetOs, definitions: Seq<DefinitionView>, datas: Seq<DataItemView>) -> Result<
    Seq<char>,
    ErrorView,
> {
    match program_code(os, definitions, datas) {
        Ok(context) => Ok(program_text(context)),
        Err(failure) => Err(failure.error),
    }
}

/// No jump of what was emitted is without its target. That every target
/// also stands as a label among what was emitted is what `lands` says.
pub open spec fn jumps_closed(context: ContextView) -> bool {
    forall|i: int|
        0 <= i < context.instructions.len() ==> !(#[trigger] context.instructions[i]).is_open_jump()
}

/// Why no assembly text was generated.
#[derive(Debug, PartialEq, Eq)]
pub enum GeneratorError {
    /// The system this process runs on is none that the backend compiles for.
    UnsupportedSystem,
    /// The program does not compile.
    Compile(X86Error),
}

/// What holds of a text generated for the system this process runs on:
/// it is the assembly of the program for one of the systems, or the program
/// does not compile for one of them, or the system is none of them.
pub open spec fn generated(
    definitions: Seq<DefinitionView>,
    datas: Seq<DataItemView>,
    result: Result<String, GeneratorError>,
) -> bool {
    match result {
        Ok(text) => exists|os: TargetOs|
            assembly(os, definitions, datas) == Ok::<Seq<char>, ErrorView>(text@),
        Err(GeneratorError::Compile(raised)) => exists|os: TargetOs|
            assembly(os, definitions, datas) == Err::<Seq<char>, ErrorView>(raised@),
        Err(GeneratorError::UnsupportedSystem) => true,
    }
}

/// The weight of more definitions is no less.
pub proof fn lemma_definitions_weight_grows(definitions: Seq<DefinitionView>, fewer: int, more: int)
    requires
        0 <= fewer <= more <= definitions.len(),
    ensures
        definitions_weight(definitions, fewer) <= definitions_weight(definitions, more),
    decreases more - fewer,
{
    if fewer < more {
        lemma_definitions_weight_grows(definitions, fewer, more - 1);
    }
}

/// Once a definition fails, the program fails with its error.
pub proof fn lemma_definitions_code_fails(
    definitions: Seq<DefinitionView>,
    failed: int,
    count: int,
    context: ContextView,
)
    requires
        0 <= failed <= count <= definitions.len(),
        definitions_code(definitions, failed, context) is Err,
    ensures
        definitions_code(
            definitions,
            count,
            context) == definitions_code(definitions,
            failed,
            context,
        ),
    decreases count - failed,
{
    if failed < count {
        lemma_definitions_code_fails(definitions, failed, count - 1, context);
    }
}

/// Turns the definitions of a program into assembly text for x86-64.
#[derive(Debug, Copy, Clone, Default)]
pub struct X86AssemblyGenerator;

impl X86AssemblyGenerator {
    /// Whether the program is one that `generate` takes: whether every
    /// function's frame and the program's branch labels stay within what
    /// the machine can count.
    pub fn fits(definitions: &Vec<Definition>) -> (fits: bool)
        ensures
            fits == program_fits(definitions_view(definitions@)),
    {
        let mut total: usize = 0;
        let mut index: usize = 0;
        while index < definitions.len()
            invariant
                index <= definitions.len(),
                total == definitions_weight(definitions_view(definitions@), index as int),
                forall|i: int|
                    0 <= i < index ==> 8 * #[trigger] definition_weight(definitions_view(definitions@)[i])
                        <= MAX_FRAME_SIZE,
            decreases definitions.len() - index,
        {
            proof {
                lemma_definitions_weight_grows(
                    definitions_view(definitions@),
                    index + 1,
                    definitions@.len() as int,
                );
            }
            match weigh_definition(&definitions[index]) {
                Some(weight) => {
                    if weight > MAX_FRAME_SIZE / 8 {
                        assert(8 * definition_weight(definitions_view(definitions@)[index as int])
                            > MAX_FRAME_SIZE);
                        return false;
                    }
                    if total > usize::MAX - weight {
                        return false;
                    }
                    total = total + weight;
                },
                None => {
                    assert(8 * definition_weight(definitions_view(definitions@)[index as int])
                            > MAX_FRAME_SIZE);
                    return false;
                },
            }
            index += 1;
        }
        true
    }

    /// Compiles the definitions in their order into `context`.
    pub fn compile_all(definitions: &Vec<Definition>, context: &mut ApplicationContext) -> (result:
        Result<(), X86Error>)
        requires
            definitions_fit(definitions_view(definitions@), old(context)@.branch_counter),
        ensures
            defined(
                definitions_code(
                    definitions_view(definitions@),
                    definitions@.len() as int,
                    old(context)@,
                ),
                result,
                final(context)@,
            ),
            result is Ok ==> appends(old(context)@, final(context)@),
    {
        let ghost initial = context@;
        let mut index: usize = 0;
        while index < definitions.len()
            invariant
                index <= definitions.len(),
                initial == old(context)@,
                definitions_fit(definitions_view(definitions@), initial.branch_counter),
                definitions_code(definitions_view(definitions@), index as int, initial) == Ok::<ContextView, Failure>(
                    context@,
                ),
                appends(initial, context@),
                context@.branch_counter <= initial.branch_counter + definitions_weight(
                    definitions_view(definitions@),
                    index as int,
                ),
            decreases definitions.len() - index,
        {
            let ghost before = context@;
            proof {
                lemma_definitions_weight_grows(
                    definitions_view(definitions@),
                    index + 1,
                    definitions@.len() as int,
                );
            }
            match X86DefinitionCompiler::compile_definition(&definitions[index], context) {
                Ok(()) => {},
                Err(error) => {
                    proof {
                        lemma_definitions_code_fails(
                            definitions_view(definitions@),
                            index + 1,
                            definitions@.len() as int,
                            initial,
                        );
                    }
                    return Err(error);
                },
            }
            proof {
                lemma_appends_chain(initial, before, context@);
            }
            index += 1;
        }
        Ok(())
    }

    /// The assembly text of the program for the given system.
    pub fn generate_for(&self, os: TargetOs, definitions: Vec<Definition>, datas: DataItemCollection) -> (result:
        Result<String, X86Error>)
        requires
            program_fits(definitions_view(definitions@)),
        ensures
            match assembly(os, definitions_view(definitions@), datas@) {
                Ok(text) => result matches Ok(generated) && generated@ == text,
                Err(error) => result matches Err(raised) && raised@ == error,
            },
            program_code(os, definitions_view(definitions@), datas@) matches Ok(context) ==> {
                &&& jumps_closed(context)
                &&& lands(context.instructions, 0)
            },
    {
        proof {
            lemma_jumps_land(os, definitions_view(definitions@), datas@);
        }
        let mut context = ApplicationContext::new(os, datas);
        match Self::compile_all(&definitions, &mut context) {
            Ok(()) => {},
            Err(error) => {
                return Err(error);
            },
        }
        let syntax_generator = TBSyntaxGenerator::get_generator();
        Ok(syntax_generator.generate(&context))
    }

    /// The assembly text of the program for the system this process runs on.
    pub fn generate(&self, definitions: Vec<Definition>, datas: DataItemCollection) -> (result: Result<
        String,
        GeneratorError,
    >)
        requires
            program_fits(definitions_view(definitions@)),
        ensures
            generated(definitions_view(definitions@), datas@, result),
    {
        match os_defs() {
            None => Err(GeneratorError::UnsupportedSystem),
            Some(os) => match self.generate_for(os, definitions, datas) {
                Ok(generated) => Ok(generated),
                Err(error) => Err(GeneratorError::Compile(error)),
            },
        }
    }
}

} // verus!
