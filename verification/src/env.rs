//! What a process is started with: an argument blob and one capability.

use crate::capability::join_halves;
use crate::capability::Capability;
use vstd::prelude::*;

verus! {

/// The values that the loader hands to a process in its first four
/// registers, kept for the life of the process.
#[derive(Debug, Clone, Copy)]
pub struct Env {
    args: u64,
    arg_size: usize,
    capability: Capability,
}

impl Env {
    /// Address of the argument blob, or zero where there is none.
    pub closed spec fn args(&self) -> u64 {
        self.args
    }

    /// Length of the argument blob in bytes.
    pub closed spec fn arg_size(&self) -> usize {
        self.arg_size
    }

    /// The capability that the process inherited.
    pub closed spec fn capability(&self) -> Capability {
        self.capability
    }

    /// Records what the process was started with: the address and length
    /// of its argument blob and the two halves of its capability.
    pub fn new(args: u64, size: usize, cap_high: u64, cap_low: u64) -> (env: Env)
        ensures
            env.args() == args,
            env.arg_size() == size,
            env.capability()@ == join_halves(cap_high, cap_low),
    {
        Env { args, arg_size: size, capability: Capability::from_halves(cap_high, cap_low) }
    }
}

/// The address of the arguments, for a caller that reads them as a value
/// of `size` bytes: there is one if the process got an argument blob and
/// the blob is at least that long.
pub fn get_args(env: &Env, size: usize) -> (args: Option<u64>)
    ensures
        args == (if env.args() != 0 && size <= env.arg_size() {
            Some(env.args())
        } else {
            None
        }),
{
    if env.args != 0 && size <= env.arg_size {
        Some(env.args)
    } else {
        None
    }
}

/// The capability that the process inherited from its creator. It is the
/// absent capability where the creator handed none over.
pub fn get_capability(env: &Env) -> (cap: Capability)
    ensures
        cap == env.capability(),
{
    env.capability
}

} // verus!
