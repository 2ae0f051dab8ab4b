//! What the P2P actor does with the commands the web front end sends it.

use vstd::prelude::*;
use vstd::utf8::{decode_utf8, encode_utf8, encode_utf8_decode_utf8, is_ascii_chars, is_ascii_chars_encode_utf8};

use crate::status::P2pStatus;

verus! {

/// The name a user registers under.
#[derive(Debug, Clone, PartialEq, Eq)]
pub struct P2pRegisterUser(pub String);

impl Default for P2pRegisterUser {
    fn default() -> (u: Self)
        ensures
            u.0@ == Seq::<char>::empty(),
    {
        P2pRegisterUser(String::new())
    }
}

/// A command, with what the actor received for it.
#[derive(Debug, PartialEq, Eq)]
pub enum ActorCommand {
    /// Someone asks for the current status.
    GetStatus,
    /// A registration: the user handed over, or why none arrived.
    RegisterUser(Result<P2pRegisterUser, String>),
}

/// The Kademlia record that publishes a user's public key.
#[derive(Debug, Clone, PartialEq, Eq)]
pub struct KeyRecordRequest {
    /// The registered user.
    pub user: String,
    /// The record key: `/pk/` followed by the user's name, as UTF-8.
    pub key: Vec<u8>,
    /// The record value: the node's public key, encoded.
    pub value: Vec<u8>,
    /// The publisher: the node's own peer id, as bytes.
    pub publisher: Vec<u8>,
    /// How long the record lives, in seconds.
    pub ttl_secs: u64,
    /// How many peers must store the record.
    pub quorum: usize,
}

/// What the actor does for a command.
#[derive(Debug, Clone, PartialEq, Eq)]
pub enum ActorAction {
    /// Answer with this copy of the status.
    ReplyStatus(P2pStatus),
    /// Store the record of this user's public key in the DHT.
    PublishKey(KeyRecordRequest),
    /// The user never arrived; report why.
    ReportReceiveFailure(String),
}

/// How long a public-key record lives, in seconds.
pub const KEY_RECORD_TTL_SECS: u64 = 60;

/// How many peers must store a public-key record.
pub const KEY_RECORD_QUORUM: usize = 3;

/// The record key of a user's public key.
pub open spec fn user_record_key(user: Seq<char>) -> Seq<u8> {
    encode_utf8("/pk/"@) + encode_utf8(user)
}

/// The record key is the four bytes of `/pk/` followed by the user's name,
/// unchanged: decoding what follows the prefix gives the name back.
pub proof fn lemma_record_key_layout(user: Seq<char>)
    ensures
        user_record_key(user).len() >= 4,
        user_record_key(user).take(4) == seq![47u8, 112u8, 107u8, 47u8],
        decode_utf8(user_record_key(user).skip(4)) == user,
{
    reveal_strlit("/pk/");
    let prefix = "/pk/"@;
    assert(is_ascii_chars(prefix));
    is_ascii_chars_encode_utf8(prefix);
    let p = encode_utf8(prefix);
    assert(p.len() == 4);
    assert(p[0] == prefix[0] as u8);
    assert(p[1] == prefix[1] as u8);
    assert(p[2] == prefix[2] as u8);
    assert(p[3] == prefix[3] as u8);
    let k = user_record_key(user);
    assert(k.take(4) =~= p);
    assert(k.skip(4) =~= encode_utf8(user));
    encode_utf8_decode_utf8(user);
}

/// Two users share a record key only if they have the same name.
pub proof fn lemma_record_keys_distinguish_users(u1: Seq<char>, u2: Seq<char>)
    ensures
        user_record_key(u1) == user_record_key(u2) ==> u1 == u2,
{
    lemma_record_key_layout(u1);
    lemma_record_key_layout(u2);
}

/// Appends bytes to a byte vector.
pub fn append_bytes(v: &mut Vec<u8>, bytes: &[u8])
    ensures
        final(v)@ == old(v)@ + bytes@,
{
    let n = bytes.len();
    for i in 0..n
        invariant
            n == bytes@.len(),
            v@ == old(v)@ + bytes@.take(i as int),
    {
        assert(bytes@.take(i + 1) == bytes@.take(i as int).push(bytes@[i as int]));
        v.push(bytes[i]);
    }
    assert(bytes@.take(n as int) == bytes@);
}

/// The record key of a user's public key.
pub fn user_record_key_bytes(user: &P2pRegisterUser) -> (key: Vec<u8>)
    ensures
        key@ == user_record_key(user.0@),
        key@ == encode_utf8("/pk/"@) + encode_utf8(user.0@),
{
    let mut key: Vec<u8> = Vec::new();
    append_bytes(&mut key, "/pk/".as_bytes());
    append_bytes(&mut key, user.0.as_str().as_bytes());
    key
}

/// A copy of a byte slice.
pub fn copy_bytes(bytes: &[u8]) -> (v: Vec<u8>)
    ensures
        v@ == bytes@,
{
    let mut v: Vec<u8> = Vec::new();
    append_bytes(&mut v, bytes);
    assert(v@ =~= bytes@);
    v
}

/// Decides what the actor does for a command; the status is only read. A
/// registration publishes `public_key` (the node's encoded public key) under
/// the user's record key, with `local_peer` (the node's peer id) as publisher.
pub fn command_receiver(
    status: &P2pStatus,
    command: ActorCommand,
    public_key: &[u8],
    local_peer: &[u8],
) -> (action: ActorAction)
    ensures
        match command {
            ActorCommand::GetStatus => action matches ActorAction::ReplyStatus(s) && s@ == status@,
            ActorCommand::RegisterUser(Ok(user)) => action matches ActorAction::PublishKey(r) && {
                &&& r.user@ == user.0@
                &&& r.key@ == user_record_key(user.0@)
                &&& r.value@ == public_key@
                &&& r.publisher@ == local_peer@
                &&& r.ttl_secs == KEY_RECORD_TTL_SECS
                &&& r.quorum == KEY_RECORD_QUORUM
            },
            ActorCommand::RegisterUser(Err(why)) => action matches ActorAction::ReportReceiveFailure(m)
                && m@ == why@,
        },
{
    match command {
        ActorCommand::GetStatus => ActorAction::ReplyStatus(status.snapshot()),
        ActorCommand::RegisterUser(Ok(user)) => {
            let key = user_record_key_bytes(&user);
            ActorAction::PublishKey(
                KeyRecordRequest {
                    user: user.0,
                    key,
                    value: copy_bytes(public_key),
                    publisher: copy_bytes(local_peer),
                    ttl_secs: KEY_RECORD_TTL_SECS,
                    quorum: KEY_RECORD_QUORUM,
                },
            )
        },
        ActorCommand::RegisterUser(Err(why)) => ActorAction::ReportReceiveFailure(why),
    }
}

} // verus!
