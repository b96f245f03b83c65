//! The environment a contract call runs in, with the record of the events the
//! library has published through it.
use vstd::prelude::*;
use soroban_sdk::Env;

verus! {

#[verifier::external_type_specification]
#[verifier::external_body]
pub struct ExEnv(soroban_sdk::Env);

/// The data of a `vfy_claim` event: the verdict and the SHA-256 digest of the
/// claim it was given for.
#[derive(Copy, Clone, Debug)]
pub struct ClaimEvent {
    pub result: bool,
    pub claim_hash: [u8; 32],
}

/// Whether `s` can name a host symbol: at most 32 characters, each one of
/// `a-z`, `A-Z`, `0-9` and `_`.
pub open spec fn symbol_text(s: Seq<char>) -> bool {
    &&& s.len() <= 32
    &&& forall|i: int|
        0 <= i < s.len() ==> {
            let c = #[trigger] s[i];
            ||| c == '_'
            ||| ('0' <= c && c <= '9')
            ||| ('A' <= c && c <= 'Z')
            ||| ('a' <= c && c <= 'z')
        }
}

/// A contract's host environment together with the events published through
/// it, in order: each as its single topic and its data.
pub struct ContractEnv {
    env: Env,
    published: Ghost<Seq<(Seq<char>, ClaimEvent)>>,
}

impl ContractEnv {
    /// The events published through this environment, oldest first.
    pub closed spec fn events(self) -> Seq<(Seq<char>, ClaimEvent)> {
        self.published@
    }

    /// Wraps a host environment; nothing has been published through it yet.
    pub fn new(env: Env) -> (c: ContractEnv)
        ensures
            c.events() == Seq::<(Seq<char>, ClaimEvent)>::empty(),
    {
        ContractEnv { env, published: Ghost(Seq::empty()) }
    }

    /// The host environment.
    pub fn env(&self) -> &Env {
        &self.env
    }
}

/// `Events::publish` (reached through `Env::events`): appends to the host's
/// event log one contract event whose topics are the one symbol `topic` and
/// whose data is the pair `(result, claim_hash)` (the digest as a 32-byte host
/// array). `Symbol::new` panics on text that cannot name a symbol, which the
/// precondition rules out. Claimed: the record of events published through
/// `host` grows by exactly this event.
#[verifier::external_body]
#[allow(deprecated)]
pub(crate) fn publish_claim_event(host: &mut ContractEnv, topic: &'static str, data: ClaimEvent)
    requires
        symbol_text(topic@),
    ensures
        final(host).events() == old(host).events().push((topic@, data)),
{
    let env = &host.env;
    let symbol = soroban_sdk::Symbol::new(env, topic);
    let digest = soroban_sdk::BytesN::from_array(env, &data.claim_hash);
    env.events().publish((symbol,), (data.result, digest));
}

} // verus!
