//! Secrets shared with other nodes.

use crate::key::PublicKey;
use crate::keymap::KeyMap;
use crate::net::disco::{DiscoBoxError, Message};
use vstd::prelude::*;

verus! {

/// The secrets that this node shares with others, each computed once.
#[derive(Debug)]
pub struct DiscoSecrets<S> {
    secrets: KeyMap<PublicKey, S>,
}

impl<S> View for DiscoSecrets<S> {
    type V = Map<PublicKey, S>;

    closed spec fn view(&self) -> Map<PublicKey, S> {
        self.secrets@
    }
}

/// The secrets after one was offered for a node.
pub open spec fn with_secret<S>(
    secrets: Map<PublicKey, S>,
    node_id: PublicKey,
    secret: S,
) -> Map<PublicKey, S> {
    if secrets.dom().contains(node_id) {
        secrets
    } else {
        secrets.insert(node_id, secret)
    }
}

/// The first secret for a node is kept: it is there after it was offered, and
/// offering another one changes nothing, for this node or for any other.
pub proof fn the_first_secret_is_kept<S>(
    secrets: Map<PublicKey, S>,
    node_id: PublicKey,
    secret: S,
    another: S,
    other: PublicKey,
)
    ensures
        ({
            let once = with_secret(secrets, node_id, secret);
            &&& once.dom().contains(node_id)
            &&& !secrets.dom().contains(node_id) ==> once[node_id] == secret
            &&& secrets.dom().contains(node_id) ==> once == secrets
            &&& with_secret(once, node_id, another) == once
            &&& other != node_id ==> (once.dom().contains(other) <==> secrets.dom().contains(
                other,
            )) && once[other] == secrets[other]
        }),
{
}

/// What a sealed message holds, or which step of reading it failed.
pub open spec fn unsealed(opened: bool, parsed: Option<Message>) -> Result<Message, DiscoBoxError> {
    match (opened, parsed) {
        (false, _) => Err(DiscoBoxError::Open),
        (true, None) => Err(DiscoBoxError::Parse),
        (true, Some(m)) => Ok(m),
    }
}

/// A message is read exactly if its box could be opened and it could be parsed, and
/// it is the one that was parsed. The step that failed first names the error.
pub proof fn messages_are_opened_and_parsed(opened: bool, parsed: Option<Message>)
    ensures
        unsealed(opened, parsed) is Ok <==> opened && parsed is Some,
        unsealed(opened, parsed) matches Ok(m) ==> parsed == Some(m),
        unsealed(opened, parsed) == Err::<Message, _>(DiscoBoxError::Open) <==> !opened,
{
}

impl<S> DiscoSecrets<S> {
    /// No node has two secrets.
    pub closed spec fn wf(&self) -> bool {
        self.secrets.wf()
    }

    /// No secrets yet.
    pub fn new() -> (r: Self)
        ensures
            r.wf(),
            r@ == Map::<PublicKey, S>::empty(),
    {
        DiscoSecrets { secrets: KeyMap::new() }
    }

    /// The secret shared with a node, if it was computed already.
    pub fn get(&self, node_id: &PublicKey) -> (r: Option<&S>)
        requires
            self.wf(),
        ensures
            r == (if self@.dom().contains(*node_id) {
                Some(&self@[*node_id])
            } else {
                None
            }),
    {
        self.secrets.get(node_id)
    }

    /// Keeps a secret, unless there is one for this node.
    pub fn or_insert(&mut self, node_id: PublicKey, secret: S)
        requires
            old(self).wf(),
        ensures
            final(self).wf(),
            final(self)@ == with_secret(old(self)@, node_id, secret),
    {
        if !self.secrets.contains_key(&node_id) {
            self.secrets.insert(node_id, secret);
        }
    }

    /// A sealed message is read in two steps, and the first that fails names the
    /// error: the box is opened with the secret, then the message in it is
    /// parsed. `opened` says whether the box could be
    /// opened, and `parsed` is the message.
    pub fn unseal_and_decode(opened: bool, parsed: Option<Message>) -> (r: Result<
        Message,
        DiscoBoxError,
    >)
        ensures
            r == unsealed(opened, parsed),
    {
        if !opened {
            return Err(DiscoBoxError::Open);
        }
        match parsed {
            Some(m) => Ok(m),
            None => Err(DiscoBoxError::Parse),
        }
    }
}

} // verus!
