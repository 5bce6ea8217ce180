//! The record that one invocation works on.

use vstd::prelude::*;

verus! {

/// What one invocation is given and what it leaves behind. `DB` is the
/// handle to the journaled state database that host bindings reach through
/// the context; the runtime keeps it and never looks inside.
pub struct RuntimeContext<DB> {
    // context inputs
    pub bytecode: Vec<u8>,
    pub fuel_limit: u32,
    pub state: u32,
    pub is_shared: bool,
    pub catch_trap: bool,
    pub input: Vec<u8>,
    // context outputs
    pub exit_code: i32,
    pub output: Vec<u8>,
    pub consumed_fuel: u32,
    pub return_data: Vec<u8>,
    // storage
    pub jzkt: Option<DB>,
}

/// The values that a context holds.
#[verifier::ext_equal]
pub struct ContextView<DB> {
    pub bytecode: Seq<u8>,
    pub fuel_limit: u32,
    pub state: u32,
    pub is_shared: bool,
    pub catch_trap: bool,
    pub input: Seq<u8>,
    pub exit_code: i32,
    pub output: Seq<u8>,
    pub consumed_fuel: u32,
    pub return_data: Seq<u8>,
    pub jzkt: Option<DB>,
}

impl<DB> View for RuntimeContext<DB> {
    type V = ContextView<DB>;

    open spec fn view(&self) -> ContextView<DB> {
        ContextView {
            bytecode: self.bytecode@,
            fuel_limit: self.fuel_limit,
            state: self.state,
            is_shared: self.is_shared,
            catch_trap: self.catch_trap,
            input: self.input@,
            exit_code: self.exit_code,
            output: self.output@,
            consumed_fuel: self.consumed_fuel,
            return_data: self.return_data@,
            jzkt: self.jzkt,
        }
    }
}

/// The values of a context that nothing was set in: no bytes, no fuel
/// limit, the sovereign surface, traps caught, no database.
pub open spec fn default_context<DB>() -> ContextView<DB> {
    ContextView {
        bytecode: Seq::empty(),
        fuel_limit: 0,
        state: 0,
        is_shared: false,
        catch_trap: true,
        input: Seq::empty(),
        exit_code: 0,
        output: Seq::empty(),
        consumed_fuel: 0,
        return_data: Seq::empty(),
        jzkt: None,
    }
}

/// Whether `copy` may be what cloning the handle `original` gave.
pub open spec fn handle_cloned<DB: Clone>(original: Option<DB>, copy: Option<DB>) -> bool {
    match original {
        Some(db) => copy.is_some() && cloned::<DB>(db, copy.unwrap()),
        None => copy.is_none(),
    }
}

/// Whether `copy` may be what cloning the context `original` gave: the same
/// values, with a clone of the database handle.
pub open spec fn context_cloned<DB: Clone>(original: ContextView<DB>, copy: ContextView<DB>) -> bool {
    &&& copy == (ContextView { jzkt: copy.jzkt, ..original })
    &&& handle_cloned(original.jzkt, copy.jzkt)
}

/// A copy of `bytes`.
pub fn clone_bytes(bytes: &Vec<u8>) -> (copy: Vec<u8>)
    ensures
        copy@ == bytes@,
{
    let copy = bytes.clone();
    assert(copy@ =~= bytes@);
    copy
}

impl<DB: Clone> Clone for RuntimeContext<DB> {
    fn clone(&self) -> (copy: Self)
        ensures
            context_cloned(self@, copy@),
    {
        RuntimeContext {
            bytecode: clone_bytes(&self.bytecode),
            fuel_limit: self.fuel_limit,
            state: self.state,
            is_shared: self.is_shared,
            catch_trap: self.catch_trap,
            input: clone_bytes(&self.input),
            exit_code: self.exit_code,
            output: clone_bytes(&self.output),
            consumed_fuel: self.consumed_fuel,
            return_data: clone_bytes(&self.return_data),
            jzkt: self.jzkt.clone(),
        }
    }
}

impl<DB> Default for RuntimeContext<DB> {
    fn default() -> (context: Self)
        ensures
            context@ == default_context::<DB>(),
    {
        RuntimeContext {
            bytecode: Vec::new(),
            fuel_limit: 0,
            state: 0,
            is_shared: false,
            catch_trap: true,
            input: Vec::new(),
            exit_code: 0,
            output: Vec::new(),
            consumed_fuel: 0,
            return_data: Vec::new(),
            jzkt: None,
        }
    }
}

impl<DB> RuntimeContext<DB> {
    /// A context for `bytecode`, with everything else as in the default.
    pub fn new(bytecode: Vec<u8>) -> (context: Self)
        ensures
            context@ == (ContextView { bytecode: bytecode@, ..default_context::<DB>() }),
    {
        RuntimeContext {
            bytecode,
            fuel_limit: 0,
            state: 0,
            is_shared: false,
            catch_trap: true,
            input: Vec::new(),
            exit_code: 0,
            output: Vec::new(),
            consumed_fuel: 0,
            return_data: Vec::new(),
            jzkt: None,
        }
    }

    /// The context with `input_data` as its input.
    pub fn with_input(self, input_data: Vec<u8>) -> (context: Self)
        ensures
            context@ == (ContextView { input: input_data@, ..self@ }),
    {
        let mut context = self;
        context.input = input_data;
        context
    }

    /// Replaces the input.
    pub fn change_input(&mut self, input_data: Vec<u8>)
        ensures
            final(self)@ == (ContextView { input: input_data@, ..old(self)@ }),
    {
        self.input = input_data;
    }

    /// The context with the state tag `state`.
    pub fn with_state(self, state: u32) -> (context: Self)
        ensures
            context@ == (ContextView { state, ..self@ }),
    {
        let mut context = self;
        context.state = state;
        context
    }

    /// The context on the shared surface, or on the sovereign one.
    pub fn with_is_shared(self, is_shared: bool) -> (context: Self)
        ensures
            context@ == (ContextView { is_shared, ..self@ }),
    {
        let mut context = self;
        context.is_shared = is_shared;
        context
    }

    /// The context with traps caught, or handed on.
    pub fn with_catch_trap(self, catch_trap: bool) -> (context: Self)
        ensures
            context@ == (ContextView { catch_trap, ..self@ }),
    {
        let mut context = self;
        context.catch_trap = catch_trap;
        context
    }

    /// The context with the fuel limit `fuel_limit`; zero is no limit.
    pub fn with_fuel_limit(self, fuel_limit: u32) -> (context: Self)
        ensures
            context@ == (ContextView { fuel_limit, ..self@ }),
    {
        let mut context = self;
        context.fuel_limit = fuel_limit;
        context
    }

    /// The context with the state database `jzkt`.
    pub fn with_jzkt(self, jzkt: DB) -> (context: Self)
        ensures
            context@ == (ContextView { jzkt: Some(jzkt), ..self@ }),
    {
        let mut context = self;
        context.jzkt = Some(jzkt);
        context
    }

    /// The exit code.
    pub fn exit_code(&self) -> (code: i32)
        ensures
            code == self@.exit_code,
    {
        self.exit_code
    }

    /// The input.
    pub fn input(&self) -> (input: &Vec<u8>)
        ensures
            input@ == self@.input,
    {
        &self.input
    }

    /// Length of the input in bytes, cut to 32 bits.
    pub fn input_count(&self) -> (count: u32)
        ensures
            count == self@.input.len() as usize as u32,
    {
        #[verifier::truncate]
        (self.input.len() as u32)
    }

    /// Length of the input in bytes, cut to 32 bits.
    pub fn input_size(&self) -> (size: u32)
        ensures
            size == self@.input.len() as usize as u32,
    {
        #[verifier::truncate]
        (self.input.len() as u32)
    }

    /// A copy of the input, as the guest is shown it.
    pub fn argv_buffer(&self) -> (buffer: Vec<u8>)
        ensures
            buffer@ == self@.input,
    {
        clone_bytes(self.input())
    }

    /// The output.
    pub fn output(&self) -> (output: &Vec<u8>)
        ensures
            output@ == self@.output,
    {
        &self.output
    }

    /// The state tag.
    pub fn state(&self) -> (state: u32)
        ensures
            state == self@.state,
    {
        self.state
    }

    /// Empties the output.
    pub fn clean_output(&mut self)
        ensures
            final(self)@ == (ContextView { output: Seq::empty(), ..old(self)@ }),
    {
        self.output = Vec::new();
    }
}

impl<DB: Clone> RuntimeContext<DB> {
    /// Another handle to the state database, if the context has one.
    pub fn jzkt(&mut self) -> (handle: Option<DB>)
        ensures
            *final(self) == *old(self),
            handle_cloned(old(self)@.jzkt, handle),
    {
        self.jzkt.clone()
    }
}

} // verus!
