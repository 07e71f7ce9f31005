//! What one whole compilation collects: the emitted items in order, the
//! labelled read-only data, and the counter of branch labels.

use vstd::prelude::*;
use vstd::string::*;
use crate::instruction::{InstructionView, X86Instruction, X86InstructionType};
use crate::location::LocationView;
use crate::register::Register;
use crate::text::{decimal, lemma_decimal_injective, push_decimal};
use crate::tool::defs::TargetOs;

verus! {

/// One literal of the data section.
#[derive(Debug, PartialEq, Eq)]
pub enum Data {
    String(String),
    Byte(u8),
}

/// What a `Data` stands for.
pub enum DataView {
    String(Seq<char>),
    Byte(u8),
}

impl View for Data {
    type V = DataView;

    open spec fn view(&self) -> DataView {
        match self {
            Data::String(text) => DataView::String(text@),
            Data::Byte(byte) => DataView::Byte(*byte),
        }
    }
}

impl Clone for Data {
    fn clone(&self) -> (copy: Data)
        ensures
            copy == *self,
    {
        match self {
            Data::String(text) => Data::String(text.clone()),
            Data::Byte(byte) => Data::Byte(*byte),
        }
    }
}

/// The literals that stand under one label.
#[derive(Debug, PartialEq, Eq)]
pub struct DataItem {
    pub label: String,
    pub values: Vec<Data>,
}

/// What a `DataItem` stands for.
pub struct DataItemView {
    pub label: Seq<char>,
    pub values: Seq<DataView>,
}

impl View for DataItem {
    type V = DataItemView;

    open spec fn view(&self) -> DataItemView {
        DataItemView {
            label: self.label@,
            values: Seq::new(self.values@.len(), |i: int| self.values@[i]@),
        }
    }
}

impl Clone for DataItem {
    fn clone(&self) -> (copy: DataItem)
        ensures
            copy@ == self@,
    {
        let mut values: Vec<Data> = Vec::new();
        let mut index: usize = 0;
        while index < self.values.len()
            invariant
                index <= self.values.len(),
                values@ == self.values@.take(index as int),
            decreases self.values.len() - index,
        {
            values.push(self.values[index].clone());
            assert(values@ =~= self.values@.take(index + 1));
            index += 1;
        }
        assert(values@ =~= self.values@);
        DataItem { label: self.label.clone(), values }
    }
}

/// The index of the first item at or after `from` that carries `label`.
pub open spec fn first_labelled(items: Seq<DataItemView>, label: Seq<char>, from: int) -> Option<int>
    decreases items.len() - from,
{
    if from < 0 || from >= items.len() {
        None
    } else if items[from].label == label {
        Some(from)
    } else {
        first_labelled(items, label, from + 1)
    }
}

/// The data after `value` is put under `label`: behind the values of the
/// first item with that label, or as a new item at the end.
pub open spec fn with_data(items: Seq<DataItemView>, label: Seq<char>, value: DataView) -> Seq<
    DataItemView,
> {
    match first_labelled(items, label, 0) {
        Some(index) => items.update(
            index,
            DataItemView { label: items[index].label, values: items[index].values.push(value) },
        ),
        None => items.push(DataItemView { label, values: seq![value] }),
    }
}

/// The label that the next new item gets: `LC` and the number of items plus one.
pub open spec fn next_data_label(items: Seq<DataItemView>) -> Seq<char> {
    "LC"@ + decimal(items.len() + 1)
}

/// The name of the branch label with the given number.
pub open spec fn branch_label(number: nat) -> Seq<char> {
    ".L"@ + decimal(number)
}

/// Branch labels with different numbers are different names.
pub proof fn lemma_branch_labels_differ(first: nat, second: nat)
    requires
        first != second,
    ensures
        branch_label(first) != branch_label(second),
{
    if branch_label(first) == branch_label(second) {
        let prefix = ".L"@;
        assert(decimal(first) =~= branch_label(first).subrange(
            prefix.len() as int,
            branch_label(first).len() as int,
        ));
        assert(decimal(second) =~= branch_label(second).subrange(
            prefix.len() as int,
            branch_label(second).len() as int,
        ));
        lemma_decimal_injective(first, second);
    }
}

/// The labelled read-only data of a program.
#[derive(Debug)]
pub struct DataItemCollection {
    pub items: Vec<DataItem>,
}

impl View for DataItemCollection {
    type V = Seq<DataItemView>;

    open spec fn view(&self) -> Seq<DataItemView> {
        Seq::new(self.items@.len(), |i: int| self.items@[i]@)
    }
}

impl Clone for DataItemCollection {
    fn clone(&self) -> (copy: DataItemCollection)
        ensures
            copy@ == self@,
    {
        let mut items: Vec<DataItem> = Vec::new();
        let mut index: usize = 0;
        while index < self.items.len()
            invariant
                index <= self.items.len(),
                items@.len() == index,
                forall|i: int| 0 <= i < index ==> (#[trigger] items@[i])@ == self.items@[i]@,
            decreases self.items.len() - index,
        {
            items.push(self.items[index].clone());
            index += 1;
        }
        let copy = DataItemCollection { items };
        assert(copy@ =~= self@);
        copy
    }
}

impl Default for DataItemCollection {
    fn default() -> (collection: Self)
        ensures
            collection@ == Seq::<DataItemView>::empty(),
    {
        let collection = DataItemCollection { items: Vec::new() };
        assert(collection@ =~= Seq::empty());
        collection
    }
}

impl DataItemCollection {
    /// The index of the first item that carries `label`.
    fn find_label(&self, label: &str) -> (found: Option<usize>)
        ensures
            match found {
                Some(index) => first_labelled(self@, label@, 0) == Some(index as int) && index
                    < self.items@.len(),
                None => first_labelled(self@, label@, 0) is None,
            },
    {
        let name = label.to_owned();
        let mut index: usize = 0;
        while index < self.items.len()
            invariant
                index <= self.items.len(),
                name@ == label@,
                first_labelled(self@, label@, 0) == first_labelled(self@, label@, index as int),
            decreases self.items.len() - index,
        {
            if self.items[index].label == name {
                return Some(index);
            }
            index += 1;
        }
        None
    }

    fn add_data(&mut self, label: &str, value: Data)
        ensures
            final(self)@ == with_data(old(self)@, label@, value@),
    {
        match self.find_label(label) {
            Some(index) => {
                let mut item = self.items.remove(index);
                let ghost before = item@;
                item.values.push(value);
                assert(item@.values =~= before.values.push(value@));
                self.items.insert(index, item);
                assert(self@ =~= with_data(old(self)@, label@, value@));
            },
            None => {
                let mut values: Vec<Data> = Vec::new();
                values.push(value);
                let item = DataItem { label: label.to_owned(), values };
                assert(item@.values =~= seq![value@]);
                self.items.push(item);
                assert(self@ =~= with_data(old(self)@, label@, value@));
            },
        }
    }

    /// Puts a text under `label`.
    pub fn add_string_data(&mut self, label: &str, data: &str)
        ensures
            final(self)@ == with_data(old(self)@, label@, DataView::String(data@)),
    {
        self.add_data(label, Data::String(data.to_owned()))
    }

    /// Puts a byte under `label`.
    pub fn add_byte_data(&mut self, label: &str, data: u8)
        ensures
            final(self)@ == with_data(old(self)@, label@, DataView::Byte(data)),
    {
        self.add_data(label, Data::Byte(data))
    }

    /// The label for the next new item.
    pub fn create_label(&mut self) -> (label: String)
        ensures
            *final(self) == *old(self),
            label@ == next_data_label(old(self)@),
    {
        let mut label = String::from_str("LC");
        push_decimal(&mut label, self.items.len() as u128 + 1);
        label
    }
}

/// One emitted item.
#[derive(Debug, PartialEq, Eq)]
pub enum AsmStructure {
    Branch(String),
    BranchFinished,
    Comment(String),
    Instruction(Box<X86Instruction>),
}

impl Clone for AsmStructure {
    fn clone(&self) -> (copy: AsmStructure)
        ensures
            copy == *self,
    {
        match self {
            AsmStructure::Branch(name) => AsmStructure::Branch(name.clone()),
            AsmStructure::BranchFinished => AsmStructure::BranchFinished,
            AsmStructure::Comment(text) => AsmStructure::Comment(text.clone()),
            AsmStructure::Instruction(instruction) => AsmStructure::Instruction(
                Box::new((**instruction).clone()),
            ),
        }
    }
}

/// What an `AsmStructure` stands for.
pub enum AsmView {
    Branch(Seq<char>),
    BranchFinished,
    Comment(Seq<char>),
    Instruction(InstructionView),
}

impl View for AsmStructure {
    type V = AsmView;

    open spec fn view(&self) -> AsmView {
        match self {
            AsmStructure::Branch(name) => AsmView::Branch(name@),
            AsmStructure::BranchFinished => AsmView::BranchFinished,
            AsmStructure::Comment(text) => AsmView::Comment(text@),
            AsmStructure::Instruction(instruction) => AsmView::Instruction(instruction@),
        }
    }
}

impl AsmView {
    /// An instruction that takes room from the stack: a subtraction from
    /// the stack pointer.
    pub open spec fn reserves(self) -> bool {
        self matches AsmView::Instruction(instruction) && instruction.inst is Sub
            && instruction.target == Some(LocationView::direct(Register::RSP))
    }

    /// A jump, conditional or not.
    pub open spec fn is_jump(self) -> bool {
        self matches AsmView::Instruction(instruction) && instruction.is_jump()
    }

    /// An instruction that brings a value to a place: a move, the load of
    /// an address or a push.
    pub open spec fn carries(self) -> bool {
        self matches AsmView::Instruction(instruction) && (instruction.inst is Mov
            || instruction.inst is Lea || instruction.inst is Push)
    }

    /// A jump whose target has not been filled in.
    pub open spec fn is_open_jump(self) -> bool {
        self matches AsmView::Instruction(instruction) && instruction.is_jump() && (
        instruction.label matches Some(label) ==> label.len() == 0)
    }
}

/// The emitted items, in the order in which they are written out.
#[derive(Debug)]
pub struct InstructionCollection {
    pub items: Vec<AsmStructure>,
}

impl View for InstructionCollection {
    type V = Seq<AsmView>;

    open spec fn view(&self) -> Seq<AsmView> {
        Seq::new(self.items@.len(), |i: int| self.items@[i]@)
    }
}

impl Default for InstructionCollection {
    fn default() -> (collection: Self)
        ensures
            collection@ == Seq::<AsmView>::empty(),
    {
        let collection = InstructionCollection { items: Vec::new() };
        assert(collection@ =~= Seq::empty());
        collection
    }
}

impl InstructionCollection {
    /// The position of the item emitted last.
    pub fn last_instruction_position(&self) -> (position: usize)
        requires
            self@.len() > 0,
        ensures
            position == self@.len() - 1,
    {
        self.items.len() - 1
    }

    /// Emits an instruction; hands back its position.
    pub fn add_instruction(&mut self, instruction: X86Instruction) -> (position: usize)
        ensures
            final(self)@ == old(self)@.push(AsmView::Instruction(instruction@)),
            position == old(self)@.len(),
    {
        self.items.push(AsmStructure::Instruction(Box::new(instruction)));
        assert(self@ =~= old(self)@.push(AsmView::Instruction(instruction@)));
        self.items.len() - 1
    }

    /// Puts `instruction` in the place of the item at `position`.
    pub fn update_instruction(&mut self, instruction: X86Instruction, position: usize)
        requires
            position < old(self)@.len(),
        ensures
            final(self)@ == old(self)@.update(position as int, AsmView::Instruction(instruction@)),
    {
        self.items.set(position, AsmStructure::Instruction(Box::new(instruction)));
        assert(self@ =~= old(self)@.update(position as int, AsmView::Instruction(instruction@)));
    }

    /// Takes out the item at `position`; the items behind it move up.
    pub fn remove_instruction(&mut self, position: usize)
        requires
            position < old(self)@.len(),
        ensures
            final(self)@ == old(self)@.remove(position as int),
    {
        self.items.remove(position);
        assert(self@ =~= old(self)@.remove(position as int));
    }

    /// Emits a label; what follows is inside its branch.
    pub fn add_branch(&mut self, name: String)
        ensures
            final(self)@ == old(self)@.push(AsmView::Branch(name@)),
    {
        self.items.push(AsmStructure::Branch(name));
        assert(self@ =~= old(self)@.push(AsmView::Branch(name@)));
    }

    /// Emits the end of the branches: what follows is inside none.
    pub fn add_close_branch(&mut self)
        ensures
            final(self)@ == old(self)@.push(AsmView::BranchFinished),
    {
        self.items.push(AsmStructure::BranchFinished);
        assert(self@ =~= old(self)@.push(AsmView::BranchFinished));
    }

    /// Emits a comment.
    pub fn add_comment(&mut self, comment: String)
        ensures
            final(self)@ == old(self)@.push(AsmView::Comment(comment@)),
    {
        self.items.push(AsmStructure::Comment(comment));
        assert(self@ =~= old(self)@.push(AsmView::Comment(comment@)));
    }
}

/// What lasts for a whole compilation besides what is emitted.
pub trait StorageTrait: Default {

}

/// The state that lasts for a whole compilation besides what is emitted.
#[derive(Debug)]
pub struct X86Storage {
    pub branch_counter: usize,
}

impl Default for X86Storage {
    fn default() -> (storage: Self)
        ensures
            storage.branch_counter == 0,
    {
        X86Storage { branch_counter: 0 }
    }
}

impl StorageTrait for X86Storage {

}

impl X86Storage {
    /// A branch label that no earlier call has handed out.
    pub fn get_branch(&mut self) -> (name: String)
        requires
            old(self).branch_counter < usize::MAX,
        ensures
            name@ == branch_label(old(self).branch_counter as nat),
            final(self).branch_counter == old(self).branch_counter + 1,
    {
        let mut name = String::from_str(".L");
        push_decimal(&mut name, self.branch_counter as u128);
        self.branch_counter += 1;
        name
    }
}

/// What a whole compilation works on: the names of the system it
/// compiles for, what is emitted, the data, and the counter of labels.
pub struct ApplicationContext {
    pub os_specific_defs: TargetOs,
    pub instructions: InstructionCollection,
    pub datas: DataItemCollection,
    pub storage: X86Storage,
}

/// What an `ApplicationContext` stands for.
pub struct ContextView {
    pub os: TargetOs,
    pub instructions: Seq<AsmView>,
    pub datas: Seq<DataItemView>,
    pub branch_counter: nat,
}

impl View for ApplicationContext {
    type V = ContextView;

    open spec fn view(&self) -> ContextView {
        ContextView {
            os: self.os_specific_defs,
            instructions: self.instructions@,
            datas: self.datas@,
            branch_counter: self.storage.branch_counter as nat,
        }
    }
}

impl ContextView {
    /// The context of a compilation of which nothing has been emitted yet.
    pub open spec fn initial(os: TargetOs, datas: Seq<DataItemView>) -> ContextView {
        ContextView { os, instructions: Seq::empty(), datas, branch_counter: 0 }
    }

    /// The context after `items` are emitted.
    pub open spec fn emit(self, items: Seq<AsmView>) -> ContextView {
        ContextView { instructions: self.instructions + items, ..self }
    }

    /// The context after one instruction is emitted.
    pub open spec fn instruction(self, instruction: InstructionView) -> ContextView {
        ContextView {
            instructions: self.instructions.push(AsmView::Instruction(instruction)),
            ..self
        }
    }

    /// The context after a comment is emitted.
    pub open spec fn comment(self, text: Seq<char>) -> ContextView {
        ContextView { instructions: self.instructions.push(AsmView::Comment(text)), ..self }
    }

    /// The context after a branch label is emitted.
    pub open spec fn branch(self, name: Seq<char>) -> ContextView {
        ContextView { instructions: self.instructions.push(AsmView::Branch(name)), ..self }
    }

    /// The context after a fresh branch label is handed out and emitted.
    pub open spec fn fresh_branch(self) -> ContextView {
        ContextView {
            instructions: self.instructions.push(AsmView::Branch(branch_label(self.branch_counter))),
            branch_counter: self.branch_counter + 1,
            ..self
        }
    }

    /// The context after `text` is interned in the data section under a new label.
    pub open spec fn intern(self, text: Seq<char>) -> ContextView {
        ContextView {
            datas: with_data(self.datas, next_data_label(self.datas), DataView::String(text)),
            ..self
        }
    }

    /// The context after `text` is interned in the data section under a new
    /// label and the address of that label is loaded into `target`.
    pub open spec fn load_text(
        self,
        text: Seq<char>,
        target: LocationView,
        comment: Option<Seq<char>>,
    ) -> ContextView {
        self.intern(text).instruction(
            InstructionView::binary(
                X86InstructionType::Lea,
                LocationView::Label(next_data_label(self.datas)),
                target,
                comment,
            ),
        )
    }
}

impl ApplicationContext {
    /// A context for a compilation that starts with the given data.
    pub fn new(os: TargetOs, datas: DataItemCollection) -> (context: Self)
        ensures
            context@ == ContextView::initial(os, datas@),
    {
        ApplicationContext {
            os_specific_defs: os,
            instructions: InstructionCollection::default(),
            datas,
            storage: X86Storage::default(),
        }
    }
}

} // verus!
