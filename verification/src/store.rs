//! The state of one function's compilation: the stack slots of its
//! variables, the pool of scratch registers, and the operand that the last
//! compiled piece produced.

use vstd::prelude::*;
use crate::location::{Location, LocationView};
use crate::register::{Register, RegisterSize, RegisterTrait};
use crate::text::{decimal, push_decimal};
use crate::types::Number;
use vstd::string::*;

verus! {

/// The largest frame, in bytes: offsets from the frame base are 32-bit.
pub const MAX_FRAME_SIZE: usize = 0x7fff_ffff;

/// A variable of the function that is being compiled.
#[derive(Debug, PartialEq, Eq)]
pub struct Variable {
    pub name: String,
    pub size: u8,
    pub position: usize,
}

/// What a `Variable` stands for.
pub struct VariableView {
    pub name: Seq<char>,
    pub size: u8,
    pub position: nat,
}

impl View for Variable {
    type V = VariableView;

    open spec fn view(&self) -> VariableView {
        VariableView { name: self.name@, size: self.size, position: self.position as nat }
    }
}

impl Clone for Variable {
    fn clone(&self) -> (copy: Self)
        ensures
            copy == *self,
    {
        Variable { name: self.name.clone(), size: self.size, position: self.position }
    }
}

/// The view of a variable that may be absent.
pub open spec fn optional_variable_view(variable: Option<&Variable>) -> Option<VariableView> {
    match variable {
        Some(variable) => Some(variable@),
        None => None,
    }
}

/// The index of the first variable at or after `from` that is called `name`.
pub open spec fn first_named(variables: Seq<VariableView>, name: Seq<char>, from: int) -> Option<int>
    decreases variables.len() - from,
{
    if from < 0 || from >= variables.len() {
        None
    } else if variables[from].name == name {
        Some(from)
    } else {
        first_named(variables, name, from + 1)
    }
}

/// The index of the first entry of the pool at or after `from` that holds `register`.
pub open spec fn first_entry(pool: Seq<(Register, bool)>, register: Register, from: int) -> Option<int>
    decreases pool.len() - from,
{
    if from < 0 || from >= pool.len() {
        None
    } else if pool[from].0 == register {
        Some(from)
    } else {
        first_entry(pool, register, from + 1)
    }
}

/// The index of the first entry of the pool at or after `from` that is free.
pub open spec fn first_free(pool: Seq<(Register, bool)>, from: int) -> Option<int>
    decreases pool.len() - from,
{
    if from < 0 || from >= pool.len() {
        None
    } else if pool[from].1 {
        Some(from)
    } else {
        first_free(pool, from + 1)
    }
}

/// The pool in which the first entry that holds `register` has the status
/// `free`; the pool itself where no entry holds it.
pub open spec fn with_status(pool: Seq<(Register, bool)>, register: Register, free: bool) -> Seq<
    (Register, bool),
> {
    match first_entry(pool, register, 0) {
        Some(index) => pool.update(index, (register, free)),
        None => pool,
    }
}

/// No entry of the pool is the stack pointer at any width: no scratch
/// register is the stack pointer.
pub open spec fn spares_stack_pointer(pool: Seq<(Register, bool)>) -> bool {
    forall|i: int|
        0 <= i < pool.len() ==> (#[trigger] pool[i]).0.spec_info() != Register::RSP.spec_info()
}

/// The name of the temporary variable that is added after `count` variables.
pub open spec fn temp_name(count: nat) -> Seq<char> {
    ".t"@ + decimal(count)
}

/// The sum of the sizes of the first `count` variables.
pub open spec fn total_size(variables: Seq<VariableView>, count: int) -> nat
    decreases count,
{
    if count <= 0 || count > variables.len() {
        0
    } else {
        total_size(variables, count - 1) + variables[count - 1].size as nat
    }
}

/// What a `Store` stands for.
pub struct StoreView {
    pub variables: Seq<VariableView>,
    pub last_position: nat,
    pub last_assigned_location: LocationView,
    pub last_size: RegisterSize,
    pub registers: Seq<(Register, bool)>,
}

/// One step on the pool of scratch registers.
pub enum RegisterStep {
    Lock(RegisterSize),
    Mark(Register),
    Unmark(Register),
    Release(Register),
}

impl StoreView {
    /// The store of a function of which nothing has been compiled yet.
    pub open spec fn initial(pool: Seq<(Register, bool)>) -> StoreView {
        StoreView {
            variables: Seq::empty(),
            last_position: 0,
            last_assigned_location: LocationView::Imm(Number::I32(0)),
            last_size: RegisterSize::_32Bit,
            registers: pool,
        }
    }

    /// Every variable takes room, lies directly below the variable added
    /// before it, and the frame ends where the last variable ends.
    pub open spec fn ordered(self) -> bool {
        &&& forall|i: int| 0 <= i < self.variables.len() ==> (#[trigger] self.variables[i]).size > 0
        &&& forall|i: int|
            0 <= i < self.variables.len() ==> (#[trigger] self.variables[i]).position == total_size(
                self.variables,
                i + 1,
            )
        &&& self.last_position == total_size(self.variables, self.variables.len() as int)
    }

    /// The variables are ordered, and the frame is one that a 32-bit offset
    /// reaches.
    pub open spec fn wf(self) -> bool {
        &&& self.ordered()
        &&& self.last_position <= MAX_FRAME_SIZE
    }

    /// The first variable that is called `name`.
    pub open spec fn find_variable(self, name: Seq<char>) -> Option<VariableView> {
        match first_named(self.variables, name, 0) {
            Some(index) => Some(self.variables[index]),
            None => None,
        }
    }

    /// The variable that `add_variable` appends.
    pub open spec fn new_variable(self, name: Seq<char>, size: u8) -> VariableView {
        VariableView { name, size, position: self.last_position + size as nat }
    }

    /// The store after a variable of `size` bytes is added under `name`.
    pub open spec fn add_variable(self, name: Seq<char>, size: u8) -> StoreView {
        StoreView {
            variables: self.variables.push(self.new_variable(name, size)),
            last_position: self.last_position + size as nat,
            ..self
        }
    }

    /// The variable called `name`, added with 8 bytes where there is none yet.
    pub open spec fn resolve_variable(self, name: Seq<char>) -> (VariableView, StoreView) {
        match self.find_variable(name) {
            Some(variable) => (variable, self),
            None => (self.new_variable(name, 8), self.add_variable(name, 8)),
        }
    }

    /// The store after a variable of `size` bytes is added under a name that
    /// no program can write: `.t` and the number of variables so far.
    pub open spec fn add_temp_variable(self, size: u8) -> StoreView {
        self.add_variable(temp_name(self.variables.len()), size)
    }

    /// The variable that `add_temp_variable` appends.
    pub open spec fn new_temp_variable(self, size: u8) -> VariableView {
        self.new_variable(temp_name(self.variables.len()), size)
    }

    /// A register counts as free unless the pool holds it as locked.
    pub open spec fn is_free(self, register: Register) -> bool {
        match first_entry(self.registers, register, 0) {
            Some(index) => self.registers[index].1,
            None => true,
        }
    }

    /// The store after `register` is marked as in use.
    pub open spec fn mark_register(self, register: Register) -> StoreView {
        StoreView { registers: with_status(self.registers, register, false), ..self }
    }

    /// The store after `register` is marked as free.
    pub open spec fn unmark_register(self, register: Register) -> StoreView {
        StoreView { registers: with_status(self.registers, register, true), ..self }
    }

    /// The register that `lock_register` hands out, and the store after it:
    /// the first free entry of the pool, locked, at the asked width.
    pub open spec fn lock_register(self, size: RegisterSize) -> Option<(Register, StoreView)> {
        match first_free(self.registers, 0) {
            Some(index) => Some(
                (
                    self.registers[index].0.spec_sized(size),
                    StoreView {
                        registers: self.registers.update(index, (self.registers[index].0, false)),
                        ..self
                    },
                ),
            ),
            None => None,
        }
    }

    /// The store with the given pool.
    pub open spec fn register_restore(self, registers: Seq<(Register, bool)>) -> StoreView {
        StoreView { registers, ..self }
    }

    /// The store with the given last operand.
    pub open spec fn set_last_assigned_location(self, location: LocationView) -> StoreView {
        StoreView { last_assigned_location: location, ..self }
    }

    /// The store with the given last width.
    pub open spec fn set_last_size(self, size: RegisterSize) -> StoreView {
        StoreView { last_size: size, ..self }
    }

    /// The store after one step on the pool.
    pub open spec fn step(self, step: RegisterStep) -> StoreView {
        match step {
            RegisterStep::Lock(size) => match self.lock_register(size) {
                Some((_, store)) => store,
                None => self,
            },
            RegisterStep::Mark(register) => self.mark_register(register),
            RegisterStep::Unmark(register) => self.unmark_register(register),
            RegisterStep::Release(register) => self.unmark_register(register),
        }
    }

    /// The store after the first `count` of `steps`.
    pub open spec fn steps(self, steps: Seq<RegisterStep>, count: int) -> StoreView
        decreases count,
    {
        if count <= 0 || count > steps.len() {
            self
        } else {
            self.steps(steps, count - 1).step(steps[count - 1])
        }
    }
}

/// The entries with which a store starts.
pub trait StoreDefaultRegisters {
    spec fn pool() -> Seq<(Register, bool)>;

    fn initialize() -> (registers: Vec<(Register, bool)>)
        ensures
            registers@ == Self::pool(),
    ;
}

/// The scratch registers of the x86-64 target: the caller-saved registers
/// that neither carry an argument nor a result.
#[derive(Debug, Copy, Clone)]
pub struct X86StoreDefaultRegisters;

impl StoreDefaultRegisters for X86StoreDefaultRegisters {
    open spec fn pool() -> Seq<(Register, bool)> {
        seq![(Register::R10, true), (Register::R11, true)]
    }

    fn initialize() -> (registers: Vec<(Register, bool)>) {
        let mut registers: Vec<(Register, bool)> = Vec::new();
        registers.push((Register::R10, true));
        registers.push((Register::R11, true));
        assert(registers@ =~= Self::pool());
        registers
    }
}

/// The state of one function's compilation.
#[derive(Debug)]
pub struct Store {
    variables: Vec<Variable>,
    last_position: usize,
    last_assigned_location: Location,
    last_size: RegisterSize,
    registers: Vec<(Register, bool)>,
}

impl View for Store {
    type V = StoreView;

    closed spec fn view(&self) -> StoreView {
        StoreView {
            variables: Seq::new(self.variables@.len(), |i: int| self.variables@[i]@),
            last_position: self.last_position as nat,
            last_assigned_location: self.last_assigned_location@,
            last_size: self.last_size,
            registers: self.registers@,
        }
    }
}

impl Default for Store {
    fn default() -> (store: Self)
        ensures
            store@ == StoreView::initial(X86StoreDefaultRegisters::pool()),
            store@.wf(),
    {
        Store::new::<X86StoreDefaultRegisters>()
    }
}

impl Store {
    /// A store for a function of which nothing has been compiled yet.
    pub fn new<D: StoreDefaultRegisters>() -> (store: Self)
        ensures
            store@ == StoreView::initial(D::pool()),
            store@.wf(),
    {
        let store = Store {
            variables: Vec::new(),
            last_position: 0,
            last_assigned_location: Location::default(),
            registers: D::initialize(),
            last_size: RegisterSize::_32Bit,
        };
        assert(store@.variables =~= Seq::empty());
        store
    }

    /// The operand that the piece compiled last produced.
    pub fn get_last_assigned_location(&mut self) -> (location: Location)
        ensures
            *final(self) == *old(self),
            location@ == old(self)@.last_assigned_location,
    {
        self.last_assigned_location.clone()
    }

    /// How many bytes of the frame the variables take.
    pub fn get_last_position(&self) -> (position: usize)
        ensures
            position == self@.last_position,
    {
        self.last_position
    }

    /// Records the operand that a compiled piece produced.
    pub fn set_last_assigned_location(&mut self, location: Location)
        ensures
            final(self)@ == old(self)@.set_last_assigned_location(location@),
    {
        self.last_assigned_location = location;
    }

    /// The width of the value compiled last.
    pub fn get_last_size(&self) -> (size: RegisterSize)
        ensures
            size == self@.last_size,
    {
        self.last_size
    }

    /// Records the width of a compiled value.
    pub fn set_last_size(&mut self, size: RegisterSize)
        ensures
            final(self)@ == old(self)@.set_last_size(size),
    {
        self.last_size = size;
    }

    /// The first variable that is called `variable`.
    pub fn find_variable(&self, variable: &str) -> (found: Option<&Variable>)
        ensures
            optional_variable_view(found) == self@.find_variable(variable@),
    {
        let name = variable.to_owned();
        let mut index: usize = 0;
        while index < self.variables.len()
            invariant
                index <= self.variables.len(),
                name@ == variable@,
                first_named(self@.variables, variable@, 0) == first_named(
                    self@.variables,
                    variable@,
                    index as int,
                ),
            decreases self.variables.len() - index,
        {
            if self.variables[index].name == name {
                return Some(&self.variables[index]);
            }
            index += 1;
        }
        None
    }

    /// A copy of the pool of scratch registers, to be restored later.
    pub fn register_backup(&self) -> (registers: Vec<(Register, bool)>)
        ensures
            registers@ == self@.registers,
    {
        let mut registers: Vec<(Register, bool)> = Vec::new();
        let mut index: usize = 0;
        while index < self.registers.len()
            invariant
                index <= self.registers.len(),
                registers@ == self.registers@.take(index as int),
            decreases self.registers.len() - index,
        {
            registers.push(self.registers[index]);
            assert(registers@ =~= self.registers@.take(index + 1));
            index += 1;
        }
        assert(registers@ =~= self.registers@);
        registers
    }

    /// Whether `register` may be taken: a register outside the pool may always.
    pub fn is_free(&mut self, register: Register) -> (free: bool)
        ensures
            *final(self) == *old(self),
            free == old(self)@.is_free(register),
    {
        let mut index: usize = 0;
        while index < self.registers.len()
            invariant
                *self == *old(self),
                index <= self.registers.len(),
                first_entry(self@.registers, register, 0) == first_entry(
                    self@.registers,
                    register,
                    index as int,
                ),
            decreases self.registers.len() - index,
        {
            if self.registers[index].0 == register {
                return self.registers[index].1;
            }
            index += 1;
        }
        true
    }

    /// The index of the first entry of the pool that holds `register`.
    fn entry_of(&self, register: Register) -> (found: Option<usize>)
        ensures
            match found {
                Some(index) => first_entry(self@.registers, register, 0) == Some(index as int)
                    && index < self@.registers.len(),
                None => first_entry(self@.registers, register, 0) is None,
            },
    {
        let mut index: usize = 0;
        while index < self.registers.len()
            invariant
                index <= self.registers.len(),
                first_entry(self@.registers, register, 0) == first_entry(
                    self@.registers,
                    register,
                    index as int,
                ),
            decreases self.registers.len() - index,
        {
            if self.registers[index].0 == register {
                return Some(index);
            }
            index += 1;
        }
        None
    }

    /// Marks `register` as in use, where the pool holds it.
    pub fn mark_register(&mut self, register: Register)
        ensures
            final(self)@ == old(self)@.mark_register(register),
    {
        if let Some(index) = self.entry_of(register) {
            self.registers.set(index, (register, false));
        }
    }

    /// Marks `register` as free, where the pool holds it.
    pub fn unmark_register(&mut self, register: Register)
        ensures
            final(self)@ == old(self)@.unmark_register(register),
    {
        if let Some(index) = self.entry_of(register) {
            self.registers.set(index, (register, true));
        }
    }

    /// Puts the pool back to what a backup holds.
    pub fn register_restore(&mut self, registers: Vec<(Register, bool)>)
        ensures
            final(self)@ == old(self)@.register_restore(registers@),
    {
        self.registers = registers;
    }

    /// Adds a variable of `size` bytes below the variables so far.
    pub fn add_variable(&mut self, name: &str, size: u8) -> (variable: Variable)
        requires
            old(self)@.wf(),
            size > 0,
            old(self)@.last_position + size <= MAX_FRAME_SIZE,
        ensures
            final(self)@ == old(self)@.add_variable(name@, size),
            final(self)@.wf(),
            variable@ == old(self)@.new_variable(name@, size),
    {
        let position = self.last_position + size as usize;
        let variable = Variable { name: name.to_owned(), size, position };
        self.variables.push(variable.clone());
        self.last_position = position;
        proof {
            assert(self@.variables =~= old(self)@.variables.push(variable@));
            lemma_total_size_push(old(self)@.variables, variable@);
        }
        variable
    }

    /// Adds a variable of `size` bytes under a name of its own.
    pub fn add_temp_variable(&mut self, size: u8) -> (variable: Variable)
        requires
            old(self)@.wf(),
            size > 0,
            old(self)@.last_position + size <= MAX_FRAME_SIZE,
        ensures
            final(self)@ == old(self)@.add_temp_variable(size),
            final(self)@.wf(),
            variable@ == old(self)@.new_temp_variable(size),
    {
        let mut name = String::from_str(".t");
        push_decimal(&mut name, self.variables.len() as u128);
        self.add_variable(name.as_str(), size)
    }

    /// The position of the variable called `name`; where there is none yet,
    /// one of 8 bytes is added.
    pub fn resolve_variable(&mut self, name: &str) -> (position: usize)
        requires
            old(self)@.wf(),
            old(self)@.last_position + 8 <= MAX_FRAME_SIZE,
        ensures
            final(self)@.wf(),
            final(self)@ == old(self)@.resolve_variable(name@).1,
            position == old(self)@.resolve_variable(name@).0.position,
            0 < position <= final(self)@.last_position,
    {
        let existing: Option<usize> = match self.find_variable(name) {
            Some(variable) => Some(variable.position),
            None => None,
        };
        proof {
            lemma_found_is_in_frame(self@, name@);
        }
        match existing {
            Some(position) => position,
            None => self.add_variable(name, 8).position,
        }
    }

    /// Takes the first free scratch register, at the asked width; `None`
    /// where every scratch register is in use.
    pub fn lock_register(&mut self, num_size: RegisterSize) -> (register: Option<Register>)
        ensures
            match old(self)@.lock_register(num_size) {
                Some((locked, store)) => register == Some(locked) && final(self)@ == store,
                None => register is None && final(self)@ == old(self)@,
            },
    {
        let mut index: usize = 0;
        while index < self.registers.len()
            invariant
                *self == *old(self),
                index <= self.registers.len(),
                first_free(self@.registers, 0) == first_free(self@.registers, index as int),
            decreases self.registers.len() - index,
        {
            if self.registers[index].1 {
                let register = self.registers[index].0;
                self.registers.set(index, (register, false));
                return Some(register.get_sized(num_size));
            }
            index += 1;
        }
        None
    }

    /// Gives a scratch register back.
    pub fn release_register(&mut self, register: Register)
        ensures
            final(self)@ == old(self)@.unmark_register(register),
    {
        self.unmark_register(register)
    }
}

/// The sizes of more variables sum to at least as much.
pub proof fn lemma_total_size_grows(variables: Seq<VariableView>, fewer: int, more: int)
    requires
        0 <= fewer <= more <= variables.len(),
    ensures
        total_size(variables, fewer) <= total_size(variables, more),
    decreases more - fewer,
{
    if fewer < more {
        lemma_total_size_grows(variables, fewer, more - 1);
    }
}

/// Where `first_named` finds a variable, it is one of the variables and
/// carries the name, and no variable before it does.
pub proof fn lemma_first_named(variables: Seq<VariableView>, name: Seq<char>, from: int)
    requires
        0 <= from,
    ensures
        match first_named(variables, name, from) {
            Some(index) => {
                &&& from <= index < variables.len()
                &&& variables[index].name == name
                &&& forall|i: int| from <= i < index ==> (#[trigger] variables[i]).name != name
            },
            None => forall|i: int| from <= i < variables.len() ==> (#[trigger] variables[i]).name != name,
        },
    decreases variables.len() - from,
{
    if from < variables.len() && variables[from].name != name {
        lemma_first_named(variables, name, from + 1);
    }
}

/// A variable that the store finds lies inside the frame, below the frame base.
pub proof fn lemma_found_is_in_frame(store: StoreView, name: Seq<char>)
    requires
        store.wf(),
    ensures
        store.find_variable(name) matches Some(variable) ==> 0 < variable.position
            <= store.last_position && variable.size > 0,
{
    lemma_first_named(store.variables, name, 0);
    if let Some(index) = first_named(store.variables, name, 0) {
        lemma_total_size_grows(store.variables, index + 1, store.variables.len() as int);
        assert(store.variables[index].size > 0);
    }
}

/// Appending a variable leaves the sizes summed so far as they were and adds
/// its size to the total.
pub proof fn lemma_total_size_push(variables: Seq<VariableView>, variable: VariableView)
    ensures
        forall|count: int|
            0 <= count <= variables.len() ==> #[trigger] total_size(variables.push(variable), count)
                == total_size(variables, count),
        total_size(variables.push(variable), variables.len() as int + 1) == total_size(
            variables,
            variables.len() as int,
        ) + variable.size as nat,
{
    assert forall|count: int| 0 <= count <= variables.len() implies #[trigger] total_size(
        variables.push(variable),
        count,
    ) == total_size(variables, count) by {
        lemma_total_size_prefix(variables, variable, count);
    }
    lemma_total_size_prefix(variables, variable, variables.len() as int);
}

proof fn lemma_total_size_prefix(variables: Seq<VariableView>, variable: VariableView, count: int)
    requires
        0 <= count <= variables.len(),
    ensures
        total_size(variables.push(variable), count) == total_size(variables, count),
    decreases count,
{
    if count > 0 {
        lemma_total_size_prefix(variables, variable, count - 1);
    }
}

/// Steps on the pool touch nothing but the pool.
pub proof fn lemma_steps_touch_the_pool_only(store: StoreView, steps: Seq<RegisterStep>, count: int)
    ensures
        store.steps(steps, count) == store.register_restore(store.steps(steps, count).registers),
    decreases count,
{
    if 0 < count <= steps.len() {
        lemma_steps_touch_the_pool_only(store, steps, count - 1);
    }
}

/// A backup of the pool, any locks, marks, unmarks and releases, and the
/// backup restored: the store is what it was when the backup was taken.
pub proof fn lemma_restore_undoes_steps(store: StoreView, steps: Seq<RegisterStep>)
    ensures
        store.steps(steps, steps.len() as int).register_restore(store.registers) == store,
{
    lemma_steps_touch_the_pool_only(store, steps, steps.len() as int);
}

/// A variable added later lies strictly further from the frame base: no
/// two variables share a position.
pub proof fn lemma_positions_increase(store: StoreView, earlier: int, later: int)
    requires
        store.ordered(),
        0 <= earlier < later < store.variables.len(),
    ensures
        store.variables[earlier].position < store.variables[later].position,
        0 < store.variables[earlier].position,
        store.variables[later].position <= store.last_position,
    decreases later - earlier,
{
    lemma_total_size_grows(store.variables, later + 1, store.variables.len() as int);
    assert(store.variables[later].size > 0);
    assert(store.variables[earlier].size > 0);
    if earlier + 1 < later {
        lemma_positions_increase(store, earlier, later - 1);
    }
}

/// Whatever the size of the frame: a variable that takes room is added at
/// the position of the frame's end plus its size, which is further from the
/// frame base than every variable before it, and the variables stay ordered.
pub proof fn lemma_add_variable_ordered(store: StoreView, name: Seq<char>, size: u8)
    requires
        store.ordered(),
        size > 0,
    ensures
        store.add_variable(name, size).ordered(),
        store.add_variable(name, size).last_position == store.last_position + size,
        store.add_variable(name, size).variables.last() == (VariableView {
            name,
            size,
            position: store.last_position + size as nat,
        }),
        forall|i: int|
            0 <= i < store.variables.len() ==> (#[trigger] store.add_variable(name, size).variables[i])
                == store.variables[i] && store.variables[i].position < store.last_position + size,
{
    lemma_total_size_push(store.variables, store.new_variable(name, size));
    assert forall|i: int| 0 <= i < store.variables.len() implies store.variables[i].position
        < store.last_position + size by {
        lemma_total_size_grows(store.variables, i + 1, store.variables.len() as int);
    }
}

/// The frame of a well-formed store ends where the sizes of all its
/// variables, summed, end; adding a variable keeps the store well formed.
pub proof fn lemma_add_variable_wf(store: StoreView, name: Seq<char>, size: u8)
    requires
        store.wf(),
        size > 0,
        store.last_position + size <= MAX_FRAME_SIZE,
    ensures
        store.add_variable(name, size).wf(),
        store.add_variable(name, size).last_position == total_size(
            store.add_variable(name, size).variables,
            store.variables.len() as int + 1,
        ),
{
    lemma_total_size_push(store.variables, store.new_variable(name, size));
}

/// Resolving a variable keeps the store well formed, takes at most 8 bytes
/// of the frame, and touches neither the variables it found nor the pool.
pub proof fn lemma_resolve_variable(store: StoreView, name: Seq<char>)
    requires
        store.wf(),
        store.last_position + 8 <= MAX_FRAME_SIZE,
    ensures
        ({
            let (variable, resolved) = store.resolve_variable(name);
            &&& resolved.wf()
            &&& 0 < variable.position <= resolved.last_position
            &&& resolved.last_position <= store.last_position + 8
            &&& resolved.registers == store.registers
            &&& resolved.last_size == store.last_size
            &&& resolved.last_assigned_location == store.last_assigned_location
            &&& store.variables.len() <= resolved.variables.len()
            &&& forall|i: int|
                0 <= i < store.variables.len() ==> #[trigger] resolved.variables[i]
                    == store.variables[i]
        }),
{
    lemma_found_is_in_frame(store, name);
    if store.find_variable(name) is None {
        lemma_add_variable_wf(store, name, 8);
    }
}

/// Where `first_entry` finds an entry, it is an entry of the pool that holds
/// the register, and no entry between `from` and it does.
pub proof fn lemma_first_entry(pool: Seq<(Register, bool)>, register: Register, from: int)
    requires
        0 <= from,
    ensures
        match first_entry(pool, register, from) {
            Some(index) => {
                &&& from <= index < pool.len()
                &&& pool[index].0 == register
                &&& forall|i: int| from <= i < index ==> (#[trigger] pool[i]).0 != register
            },
            None => forall|i: int| from <= i < pool.len() ==> (#[trigger] pool[i]).0 != register,
        },
    decreases pool.len() - from,
{
    if from < pool.len() && pool[from].0 != register {
        lemma_first_entry(pool, register, from + 1);
    }
}

/// The entry that holds the register and has none before it that does is
/// the one that `first_entry` finds.
pub proof fn lemma_first_entry_found(
    pool: Seq<(Register, bool)>,
    register: Register,
    from: int,
    index: int,
)
    requires
        0 <= from <= index < pool.len(),
        pool[index].0 == register,
        forall|i: int| from <= i < index ==> (#[trigger] pool[i]).0 != register,
    ensures
        first_entry(pool, register, from) == Some(index),
    decreases index - from,
{
    if from < index {
        assert(pool[from].0 != register);
        lemma_first_entry_found(pool, register, from + 1, index);
    }
}

/// After the status of a register is set, the pool holds that status for
/// it: the register is free exactly if it was set free or the pool does
/// not hold it.
pub proof fn lemma_with_status(pool: Seq<(Register, bool)>, register: Register, free: bool)
    ensures
        first_entry(with_status(pool, register, free), register, 0) == first_entry(pool, register, 0),
        first_entry(pool, register, 0) matches Some(index) ==> with_status(pool, register, free)[index]
            == (register, free),
{
    lemma_first_entry(pool, register, 0);
    if let Some(index) = first_entry(pool, register, 0) {
        let changed = with_status(pool, register, free);
        assert forall|i: int| 0 <= i < index implies (#[trigger] changed[i]).0 != register by {
            assert(pool[i].0 != register);
        }
        lemma_first_entry_found(changed, register, 0, index);
    }
}

/// Setting the status of a register changes no name in the pool.
pub proof fn lemma_with_status_names(pool: Seq<(Register, bool)>, register: Register, free: bool)
    ensures
        with_status(pool, register, free).len() == pool.len(),
        forall|i: int|
            0 <= i < pool.len() ==> (#[trigger] with_status(pool, register, free)[i]).0 == pool[i].0,
        spares_stack_pointer(pool) ==> spares_stack_pointer(with_status(pool, register, free)),
{
    lemma_first_entry(pool, register, 0);
    let changed = with_status(pool, register, free);
    assert forall|i: int| 0 <= i < pool.len() implies (#[trigger] changed[i]).0 == pool[i].0 by {}
    if spares_stack_pointer(pool) {
        assert forall|i: int| 0 <= i < changed.len() implies (#[trigger] changed[i]).0.spec_info()
            != Register::RSP.spec_info() by {
            assert(changed[i].0 == pool[i].0);
        }
    }
}

/// The register that a pool without the stack pointer hands out is not the
/// stack pointer, and the pool is without it afterwards too.
pub proof fn lemma_lock_spares(store: StoreView, size: RegisterSize)
    requires
        spares_stack_pointer(store.registers),
    ensures
        store.lock_register(size) matches Some((register, locked)) ==> register.spec_info()
            != Register::RSP.spec_info() && register != Register::RSP && spares_stack_pointer(
            locked.registers,
        ),
{
    if let Some((register, locked)) = store.lock_register(size) {
        let index = first_free(store.registers, 0)->0;
        lemma_first_free(store.registers, 0);
        crate::register::lemma_sized_member(store.registers[index].0, size);
        assert forall|i: int| 0 <= i < locked.registers.len() implies (#[trigger] locked.registers[i]).0.spec_info()
            != Register::RSP.spec_info() by {
            assert(locked.registers[i].0 == store.registers[i].0);
        }
    }
}

/// Where `first_free` finds an entry, it is an entry of the pool.
pub proof fn lemma_first_free(pool: Seq<(Register, bool)>, from: int)
    requires
        0 <= from,
    ensures
        first_free(pool, from) matches Some(index) ==> from <= index < pool.len() && pool[index].1,
    decreases pool.len() - from,
{
    if from < pool.len() && !pool[from].1 {
        lemma_first_free(pool, from + 1);
    }
}

} // verus!
