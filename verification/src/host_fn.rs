//! Host capabilities: the privileged operations that sandboxed code may ask
//! the host for, by name.

use vstd::prelude::*;
use vstd::string::*;

verus! {

/// How many random bytes are asked for.
#[derive(Debug, Clone, Copy, PartialEq, Eq, Structural)]
pub struct RandomBytesInput(pub u32);

impl RandomBytesInput {
    pub fn new(length: u32) -> (input: RandomBytesInput)
        ensures
            input.0 == length,
    {
        RandomBytesInput(length)
    }

    pub fn into_inner(self) -> (length: u32)
        ensures
            length == self.0,
    {
        self.0
    }
}

/// The random bytes that were asked for.
#[derive(Debug)]
pub struct RandomBytesOutput(pub Vec<u8>);

impl RandomBytesOutput {
    pub fn into_inner(self) -> (bytes: Vec<u8>)
        ensures
            bytes@ == self.0@,
    {
        self.0
    }
}

/// What the host's random number generator did with a buffer.
#[derive(Debug)]
pub enum RandomFill {
    /// The generator could not be set up.
    Unavailable(String),
    /// The generator was set up but could not fill the buffer.
    Failed(String),
    /// The buffer, filled.
    Filled(Vec<u8>),
}

/// Why a request to the host failed.
#[derive(Debug)]
pub enum RibosomeError {
    /// The capability failed; the guest may try again or give up.
    Capability(String),
    /// The host cannot serve the call at all.
    HostEnvironment(String),
    /// The guest asked for a capability that the host does not have.
    UnknownCapability(String),
}

/// Mathematical model of a [`RandomFill`].
pub enum RandomFillModel {
    Unavailable(Seq<char>),
    Failed(Seq<char>),
    Filled(Seq<u8>),
}

/// Mathematical model of a [`RibosomeError`].
pub enum RibosomeErrorModel {
    Capability(Seq<char>),
    HostEnvironment(Seq<char>),
    UnknownCapability(Seq<char>),
}

impl View for RandomFill {
    type V = RandomFillModel;

    open spec fn view(&self) -> RandomFillModel {
        match self {
            RandomFill::Unavailable(message) => RandomFillModel::Unavailable(message@),
            RandomFill::Failed(message) => RandomFillModel::Failed(message@),
            RandomFill::Filled(bytes) => RandomFillModel::Filled(bytes@),
        }
    }
}

impl View for RibosomeError {
    type V = RibosomeErrorModel;

    open spec fn view(&self) -> RibosomeErrorModel {
        match self {
            RibosomeError::Capability(message) => RibosomeErrorModel::Capability(message@),
            RibosomeError::HostEnvironment(message) => RibosomeErrorModel::HostEnvironment(
                message@,
            ),
            RibosomeError::UnknownCapability(name) => RibosomeErrorModel::UnknownCapability(name@),
        }
    }
}

/// The buffer that the generator is handed for a request: as long as was
/// asked for, and all zero.
pub fn zeroed_buffer(input: RandomBytesInput) -> (buffer: Vec<u8>)
    ensures
        buffer@.len() == input.0,
        forall|i: int| 0 <= i < buffer@.len() ==> buffer@[i] == 0,
{
    let mut buffer: Vec<u8> = Vec::new();
    let mut i: u32 = 0;
    while i < input.0
        invariant
            i <= input.0,
            buffer@.len() == i,
            forall|j: int| 0 <= j < buffer@.len() ==> buffer@[j] == 0,
        decreases input.0 - i,
    {
        buffer.push(0);
        i += 1;
    }
    buffer
}

/// What the random-bytes capability answers, given what the generator did.
pub open spec fn random_bytes_answer(length: u32, fill: RandomFillModel) -> Result<
    Seq<u8>,
    RibosomeErrorModel,
> {
    match fill {
        RandomFillModel::Unavailable(message) => Err(RibosomeErrorModel::HostEnvironment(message)),
        RandomFillModel::Failed(message) => Err(RibosomeErrorModel::Capability(message)),
        RandomFillModel::Filled(bytes) => if bytes.len() == length {
            Ok(bytes)
        } else {
            Err(RibosomeErrorModel::Capability("random bytes of the wrong length"@))
        },
    }
}

/// The view of what a capability answered with bytes.
pub open spec fn bytes_answer_model(answer: Result<RandomBytesOutput, RibosomeError>) -> Result<
    Seq<u8>,
    RibosomeErrorModel,
> {
    match answer {
        Ok(output) => Ok(output.0@),
        Err(e) => Err(e@),
    }
}

/// Returns the random bytes that the guest asked for.
///
/// `fill` is what the host's generator did with [`zeroed_buffer`]. The answer
/// holds exactly as many bytes as were asked for, or it is an error: that the
/// generator is unavailable is an error of the host's environment, anything
/// else one of the capability.
pub fn random_bytes(input: RandomBytesInput, fill: RandomFill) -> (output: Result<
    RandomBytesOutput,
    RibosomeError,
>)
    ensures
        bytes_answer_model(output) == random_bytes_answer(input.0, fill@),
        output is Ok ==> output->Ok_0.0@.len() == input.0,
{
    match fill {
        RandomFill::Unavailable(message) => Err(RibosomeError::HostEnvironment(message)),
        RandomFill::Failed(message) => Err(RibosomeError::Capability(message)),
        RandomFill::Filled(bytes) => {
            if bytes.len() == input.0 as usize {
                Ok(RandomBytesOutput(bytes))
            } else {
                Err(RibosomeError::Capability(String::from_str("random bytes of the wrong length")))
            }
        },
    }
}

/// The capabilities that the host has.
#[derive(Debug, Clone, Copy, PartialEq, Eq, Structural)]
pub enum HostFn {
    RandomBytes,
}

/// The capability of a name, if the host has one of that name.
pub open spec fn host_fn_named(name: Seq<char>) -> Option<HostFn> {
    if name == "random_bytes"@ {
        Some(HostFn::RandomBytes)
    } else {
        None
    }
}

impl HostFn {
    /// The name by which a guest asks for this capability.
    pub fn name(&self) -> (name: &'static str)
        ensures
            host_fn_named(name@) == Some(*self),
    {
        match self {
            HostFn::RandomBytes => "random_bytes",
        }
    }

    /// Looks a capability up by its name.
    pub fn from_name(name: &str) -> (found: Option<HostFn>)
        ensures
            found == host_fn_named(name@),
    {
        if name.to_owned() == String::from_str("random_bytes") {
            Some(HostFn::RandomBytes)
        } else {
            None
        }
    }
}

/// Serves a guest's request for the capability called `name`.
///
/// A name that the host does not know is refused; nothing is done for it.
pub fn dispatch(name: &str, input: RandomBytesInput, fill: RandomFill) -> (output: Result<
    RandomBytesOutput,
    RibosomeError,
>)
    ensures
        bytes_answer_model(output) == match host_fn_named(name@) {
            Some(HostFn::RandomBytes) => random_bytes_answer(input.0, fill@),
            None => Err(RibosomeErrorModel::UnknownCapability(name@)),
        },
{
    match HostFn::from_name(name) {
        Some(HostFn::RandomBytes) => random_bytes(input, fill),
        None => Err(RibosomeError::UnknownCapability(name.to_owned())),
    }
}

} // verus!
