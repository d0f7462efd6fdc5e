//! What the server does with the frames its clients send: it keeps one store
//! for all its connections, answers `SET` with `SUCCESS`, `GET` with the
//! stored bytes or null, any other command with an error frame, and leaves a
//! frame that holds no well-formed command unanswered. A value stored on one
//! connection is read back on any later one.

use vstd::prelude::*;
use vstd::string::StringExecFns;
use vstd::utf8::{decode_utf8, valid_utf8};
use crate::command::{
    Command, CommandView, command_of_frame, get_request, parse_command, set_request,
};
use crate::frame::{RespFrame, RespFrameView};
use crate::store::Db;

verus! {

/// The text of the reply to a `SET`.
pub open spec fn set_reply_text() -> Seq<char> {
    "SUCCESS"@
}

/// The text of the error frame that answers a command other than `GET` and
/// `SET`.
pub open spec fn unsupported_reply_text() -> Seq<char> {
    "[FAIL] Method Unimplemented"@
}

/// The reply to a `GET` of `key` against `store`.
pub open spec fn get_reply(store: Map<Seq<char>, Seq<u8>>, key: Seq<char>) -> RespFrameView {
    if store.contains_key(key) {
        RespFrameView::Bulk(store[key])
    } else {
        RespFrameView::Null
    }
}

/// One step of the server: from the store and the command read from a
/// frame (`None`: no well-formed command) to the new store and the reply to
/// write (`None`: nothing is written).
pub open spec fn server_step(store: Map<Seq<char>, Seq<u8>>, cmd: Option<CommandView>) -> (
    Map<Seq<char>, Seq<u8>>,
    Option<RespFrameView>,
) {
    match cmd {
        None => (store, None),
        Some(CommandView::SetValue { key, value }) => (
            store.insert(key, value),
            Some(RespFrameView::Simple(set_reply_text())),
        ),
        Some(CommandView::Get { key }) => (store, Some(get_reply(store, key))),
        Some(_) => (store, Some(RespFrameView::Error(unsupported_reply_text()))),
    }
}

/// A `GET` answers with the value that the last `SET` of the same key
/// stored, on whichever connection either came.
pub proof fn lemma_get_after_set(store: Map<Seq<char>, Seq<u8>>, key: Seq<char>, value: Seq<u8>)
    ensures
        ({
            let after_set = server_step(store, Some(CommandView::SetValue { key, value })).0;
            server_step(after_set, Some(CommandView::Get { key })).1
        }) == Some(RespFrameView::Bulk(value)),
{
}

/// Of two `SET`s of one key, the later one wins.
pub proof fn lemma_last_set_wins(
    store: Map<Seq<char>, Seq<u8>>,
    key: Seq<char>,
    first: Seq<u8>,
    second: Seq<u8>,
)
    ensures
        ({
            let s1 = server_step(store, Some(CommandView::SetValue { key, value: first })).0;
            let s2 = server_step(s1, Some(CommandView::SetValue { key, value: second })).0;
            server_step(s2, Some(CommandView::Get { key })).1
        }) == Some(RespFrameView::Bulk(second)),
{
}

/// A `SET` of one key leaves what a `GET` of any other key answers unchanged.
pub proof fn lemma_set_leaves_other_keys(
    store: Map<Seq<char>, Seq<u8>>,
    key: Seq<char>,
    value: Seq<u8>,
    other: Seq<char>,
)
    requires
        other != key,
    ensures
        ({
            let after_set = server_step(store, Some(CommandView::SetValue { key, value })).0;
            server_step(after_set, Some(CommandView::Get { key: other })).1
        }) == server_step(store, Some(CommandView::Get { key: other })).1,
{
}

/// Every `SET` is answered `SUCCESS`.
pub proof fn lemma_set_answers_success(
    store: Map<Seq<char>, Seq<u8>>,
    key: Seq<char>,
    value: Seq<u8>,
)
    ensures
        server_step(store, Some(CommandView::SetValue { key, value })).1 == Some(
            RespFrameView::Simple(set_reply_text()),
        ),
{
}

/// A new server knows no key: a `GET` on it answers null.
pub proof fn lemma_new_server_is_empty(key: Seq<char>)
    ensures
        server_step(Map::empty(), Some(CommandView::Get { key })).1 == Some(RespFrameView::Null),
{
}

/// Only `SET` changes the store: every other command, and a frame without a
/// well-formed command, leaves it as it was.
pub proof fn lemma_only_set_writes(store: Map<Seq<char>, Seq<u8>>, cmd: Option<CommandView>)
    requires
        !(cmd matches Some(CommandView::SetValue { .. })),
    ensures
        server_step(store, cmd).0 == store,
{
}

/// A frame without a well-formed command is not answered, and a command
/// other than `GET` and `SET` is answered with the error frame.
pub proof fn lemma_rejected_commands(store: Map<Seq<char>, Seq<u8>>, cmd: Option<CommandView>)
    ensures
        cmd is None ==> server_step(store, cmd).1 is None,
        (cmd matches Some(c) && !(c is Get) && !(c is SetValue)) ==> server_step(store, cmd).1
            == Some(RespFrameView::Error(unsupported_reply_text())),
{
}

/// The store and the replies after a run of commands, one step after the
/// other, starting from `store`.
pub open spec fn server_run(store: Map<Seq<char>, Seq<u8>>, cmds: Seq<Option<CommandView>>) -> (
    Map<Seq<char>, Seq<u8>>,
    Seq<Option<RespFrameView>>,
)
    decreases cmds.len(),
{
    if cmds.len() == 0 {
        (store, Seq::empty())
    } else {
        let prev = server_run(store, cmds.drop_last());
        let next = server_step(prev.0, cmds.last());
        (next.0, prev.1.push(next.1))
    }
}

/// The value that the last `SET` of `key` among `cmds` stored, if any.
pub open spec fn last_set(cmds: Seq<Option<CommandView>>, key: Seq<char>) -> Option<Seq<u8>>
    decreases cmds.len(),
{
    if cmds.len() == 0 {
        None
    } else {
        match cmds.last() {
            Some(CommandView::SetValue { key: k, value }) => if k == key {
                Some(value)
            } else {
                last_set(cmds.drop_last(), key)
            },
            _ => last_set(cmds.drop_last(), key),
        }
    }
}

/// The value held for `key` after a run of commands from `store`: what the
/// last `SET` of it stored, else what the store held before.
pub open spec fn value_after(
    store: Map<Seq<char>, Seq<u8>>,
    cmds: Seq<Option<CommandView>>,
    key: Seq<char>,
) -> Option<Seq<u8>> {
    match last_set(cmds, key) {
        Some(v) => Some(v),
        None => if store.contains_key(key) {
            Some(store[key])
        } else {
            None
        },
    }
}

/// The value that a store holds for `key`, if any.
pub open spec fn stored(store: Map<Seq<char>, Seq<u8>>, key: Seq<char>) -> Option<Seq<u8>> {
    if store.contains_key(key) {
        Some(store[key])
    } else {
        None
    }
}

/// The reply that the `i`-th command of a run from `store` receives: `SET` is
/// answered `SUCCESS`; `GET` the value of the last earlier `SET` of its key
/// (else what the store held, else null); any other command the error frame;
/// a frame without a well-formed command nothing.
pub open spec fn expected_reply(
    store: Map<Seq<char>, Seq<u8>>,
    cmds: Seq<Option<CommandView>>,
    i: int,
) -> Option<RespFrameView> {
    match cmds[i] {
        None => None,
        Some(CommandView::SetValue { .. }) => Some(RespFrameView::Simple(set_reply_text())),
        Some(CommandView::Get { key }) => Some(
            match value_after(store, cmds.take(i), key) {
                Some(v) => RespFrameView::Bulk(v),
                None => RespFrameView::Null,
            },
        ),
        Some(_) => Some(RespFrameView::Error(unsupported_reply_text())),
    }
}

/// After a run, the store holds for each key what the last `SET` of it
/// stored, else what it held before; and there is one reply per command.
pub proof fn lemma_run_store(
    store: Map<Seq<char>, Seq<u8>>,
    cmds: Seq<Option<CommandView>>,
    key: Seq<char>,
)
    ensures
        stored(server_run(store, cmds).0, key) == value_after(store, cmds, key),
        server_run(store, cmds).1.len() == cmds.len(),
    decreases cmds.len(),
{
    if cmds.len() > 0 {
        lemma_run_store(store, cmds.drop_last(), key);
    }
}

/// Over any run of commands, whichever connections they came on, each
/// command receives `expected_reply`: in particular each `GET` answers the
/// value of the last earlier `SET` of its key.
pub proof fn lemma_server_run(store: Map<Seq<char>, Seq<u8>>, cmds: Seq<Option<CommandView>>, i: int)
    requires
        0 <= i < cmds.len(),
    ensures
        server_run(store, cmds).1[i] == expected_reply(store, cmds, i),
    decreases cmds.len(),
{
    let n = cmds.len();
    let prefix = cmds.drop_last();
    lemma_run_store(store, prefix, Seq::empty());
    lemma_run_store(store, cmds, Seq::empty());
    if i < n - 1 {
        lemma_server_run(store, prefix, i);
        assert(prefix.take(i) =~= cmds.take(i));
        assert(prefix[i] == cmds[i]);
    } else {
        assert(cmds.take(i) =~= prefix);
        match cmds[i] {
            Some(CommandView::Get { key }) => {
                lemma_run_store(store, prefix, key);
            },
            _ => {},
        }
    }
}

/// A command that, if it is a `SET` of `key`, stores `value`.
pub open spec fn stores_only(c: Option<CommandView>, key: Seq<char>, value: Seq<u8>) -> bool {
    match c {
        Some(CommandView::SetValue { key: k, value: v }) => k == key ==> v == value,
        _ => true,
    }
}

/// Where every `SET` of `key` stores the same value, the last `SET` of it
/// before position `n` stores that value, as soon as there is one.
proof fn lemma_last_set_same_value(cmds: Seq<Option<CommandView>>, key: Seq<char>, value: Seq<u8>, j: int)
    requires
        0 <= j < cmds.len(),
        cmds[j] == Some(CommandView::SetValue { key, value }),
        forall|k: int|
            0 <= k < cmds.len() ==> stores_only(#[trigger] cmds[k], key, value),
    ensures
        last_set(cmds, key) == Some(value),
    decreases cmds.len(),
{
    if j < cmds.len() - 1 {
        let prefix = cmds.drop_last();
        assert(prefix[j] == cmds[j]);
        assert forall|k: int|
            0 <= k < prefix.len() implies stores_only(#[trigger] prefix[k], key, value) by {
            assert(prefix[k] == cmds[k]);
        }
        lemma_last_set_same_value(prefix, key, value, j);
        let l = cmds.len() - 1;
        assert(cmds[l] == cmds.last());
    }
}

/// Clients that all store the same value under a key read that value back,
/// in whatever order their commands reach the server, once one of them has
/// stored it.
pub proof fn lemma_same_value_read_back(
    store: Map<Seq<char>, Seq<u8>>,
    cmds: Seq<Option<CommandView>>,
    key: Seq<char>,
    value: Seq<u8>,
    j: int,
    i: int,
)
    requires
        0 <= j < i < cmds.len(),
        cmds[j] == Some(CommandView::SetValue { key, value }),
        cmds[i] == Some(CommandView::Get { key }),
        forall|k: int|
            0 <= k < cmds.len() ==> stores_only(#[trigger] cmds[k], key, value),
    ensures
        server_run(store, cmds).1[i] == Some(RespFrameView::Bulk(value)),
{
    lemma_server_run(store, cmds, i);
    let prefix = cmds.take(i);
    assert(prefix[j] == cmds[j]);
    assert forall|k: int|
        0 <= k < prefix.len() implies stores_only(#[trigger] prefix[k], key, value) by {
        assert(prefix[k] == cmds[k]);
    }
    lemma_last_set_same_value(prefix, key, value, j);
}

/// The value of an optional command.
pub open spec fn command_view_opt(c: Option<Command>) -> Option<CommandView> {
    match c {
        Some(c) => Some(c@),
        None => None,
    }
}

/// The value of an optional frame.
pub open spec fn frame_view_opt(f: Option<RespFrame>) -> Option<RespFrameView> {
    match f {
        Some(f) => Some(f@),
        None => None,
    }
}

/// The state of a server: the one store that all its connections share.
pub struct Server {
    db: Db,
}

impl View for Server {
    type V = Map<Seq<char>, Seq<u8>>;

    closed spec fn view(&self) -> Map<Seq<char>, Seq<u8>> {
        self.db@
    }
}

impl Server {
    /// A new server, with an empty store.
    pub fn new() -> (s: Server)
        ensures
            s@ == Map::<Seq<char>, Seq<u8>>::empty(),
    {
        Server { db: Db::new() }
    }

    /// The value stored under `key`, if any.
    pub fn lookup(&self, key: &str) -> (res: Option<Vec<u8>>)
        ensures
            match res {
                Some(v) => self@.contains_key(key@) && v@ == self@[key@],
                None => !self@.contains_key(key@),
            },
    {
        self.db.get(key)
    }

    /// Carries out a command read from a frame (`None` where the frame held
    /// no well-formed command) and returns the frame to answer with, if any.
    pub fn apply(&mut self, cmd: Option<Command>) -> (reply: Option<RespFrame>)
        ensures
            (final(self)@, frame_view_opt(reply)) == server_step(
                old(self)@,
                command_view_opt(cmd),
            ),
    {
        match cmd {
            None => None,
            Some(Command::SetValue { key, value }) => {
                self.db.set(key, value);
                Some(RespFrame::Simple(String::from_str("SUCCESS")))
            },
            Some(Command::Get { key }) => match self.db.get(key.as_str()) {
                Some(value) => Some(RespFrame::Bulk(value)),
                None => Some(RespFrame::Null),
            },
            Some(_) => Some(RespFrame::Error(String::from_str("[FAIL] Method Unimplemented"))),
        }
    }

    /// Reads the command in a frame and carries it out, returning the frame
    /// to answer with, if any. A `SET` request frame with a UTF-8 key stores
    /// the value and is answered `SUCCESS`; a `GET` request frame with a
    /// UTF-8 key is answered with the stored bytes or null.
    pub fn handle_frame(&mut self, frame: RespFrame) -> (reply: Option<RespFrame>)
        ensures
            (final(self)@, frame_view_opt(reply)) == server_step(
                old(self)@,
                command_of_frame(frame@),
            ),
            forall|k: Seq<u8>, v: Seq<u8>|
                frame@ == set_request(k, v) && valid_utf8(k) ==> {
                    &&& final(self)@ == old(self)@.insert(decode_utf8(k), v)
                    &&& frame_view_opt(reply) == Some(RespFrameView::Simple(set_reply_text()))
                },
            forall|k: Seq<u8>|
                frame@ == get_request(k) && valid_utf8(k) ==> {
                    &&& final(self)@ == old(self)@
                    &&& frame_view_opt(reply) == Some(get_reply(old(self)@, decode_utf8(k)))
                },
    {
        let cmd = parse_command(frame);
        self.apply(cmd)
    }
}

} // verus!
