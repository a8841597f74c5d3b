//! The key-value backend as values, and what holds of commands executed
//! against it in order.
use vstd::prelude::*;

use crate::command::{resolve_model, submit_model, CommandModel, ReplyModel};
use crate::encoder::key_of;
use crate::processor::ProcessorModel;

verus! {

/// The backend's contents: each key's value.
pub type StoreModel = Map<Seq<char>, Seq<char>>;

/// A command executed against a backend that does not fail: the contents
/// after it, and its reply. A write overwrites; a read changes nothing.
pub open spec fn apply(s: StoreModel, c: CommandModel) -> (StoreModel, ReplyModel) {
    match c {
        CommandModel::Put { key, value } => (s.insert(key, value), ReplyModel::Stored),
        CommandModel::Get { key } => (
            s,
            if s.contains_key(key) {
                ReplyModel::Found(s[key])
            } else {
                ReplyModel::NotFound
            },
        ),
    }
}

/// The contents after `cmds`, executed one at a time in order.
pub open spec fn store_after(s: StoreModel, cmds: Seq<CommandModel>) -> StoreModel
    decreases cmds.len(),
{
    if cmds.len() == 0 {
        s
    } else {
        apply(store_after(s, cmds.drop_last()), cmds.last()).0
    }
}

/// The reply to the command at `j` when `cmds` are executed in order.
pub open spec fn reply_at(s: StoreModel, cmds: Seq<CommandModel>, j: int) -> ReplyModel {
    apply(store_after(s, cmds.take(j)), cmds[j]).1
}

/// Whether `c` writes under `key`.
pub open spec fn writes(c: CommandModel, key: Seq<char>) -> bool {
    c matches CommandModel::Put { key: k, .. } && k == key
}

/// Submitting a URL stores it under its key, and resolving that key then
/// gives the URL back.
pub proof fn lemma_round_trip(s: StoreModel, url: Seq<char>)
    ensures
        apply(s, submit_model(url)).1 == ReplyModel::Stored,
        apply(apply(s, submit_model(url)).0, resolve_model(key_of(url))).1 == ReplyModel::Found(
            url,
        ),
{
}

/// Submitting a URL twice issues the same write twice, which leaves the
/// backend as one submission does, with the same reply.
pub proof fn lemma_submit_idempotent(s: StoreModel, url: Seq<char>)
    ensures
        apply(apply(s, submit_model(url)).0, submit_model(url)) == apply(s, submit_model(url)),
{
    assert(apply(apply(s, submit_model(url)).0, submit_model(url)).0 =~= apply(
        s,
        submit_model(url),
    ).0);
}

proof fn lemma_kept_until(s: StoreModel, cmds: Seq<CommandModel>, i: int, m: int, key: Seq<char>)
    requires
        0 <= i < m <= cmds.len(),
        cmds[i] matches CommandModel::Put { key: k, .. } && k == key,
        forall|n: int| i < n < m ==> !writes(#[trigger] cmds[n], key),
    ensures
        store_after(s, cmds.take(m)).contains_key(key),
        cmds[i] matches CommandModel::Put { value, .. } && store_after(s, cmds.take(m))[key]
            == value,
    decreases m - i,
{
    let t = cmds.take(m);
    assert(t.drop_last() =~= cmds.take(m - 1));
    assert(t.last() == cmds[m - 1]);
    if m - 1 > i {
        lemma_kept_until(s, cmds, i, m - 1, key);
    }
}

/// Commands run in order: a read of a key that follows a submission of the
/// URL, with only commands that do not write that key in between, finds the
/// URL just written, whatever else runs before, between and after.
pub proof fn lemma_read_after_write(
    s: StoreModel,
    cmds: Seq<CommandModel>,
    i: int,
    j: int,
    url: Seq<char>,
)
    requires
        0 <= i < j < cmds.len(),
        cmds[i] == submit_model(url),
        cmds[j] == resolve_model(key_of(url)),
        forall|n: int| i < n < j ==> !writes(#[trigger] cmds[n], key_of(url)),
    ensures
        reply_at(s, cmds, j) == ReplyModel::Found(url),
{
    lemma_kept_until(s, cmds, i, j, key_of(url));
}

/// The processor hands commands to the backend in the order it accepted them,
/// one at a time: a read of a URL's key accepted after a submission of that
/// URL, with no write of the key accepted in between, finds the URL once it
/// has executed, whatever unrelated traffic the processor carries.
pub proof fn lemma_processor_read_after_write(
    p: ProcessorModel,
    s: StoreModel,
    i: int,
    j: int,
    url: Seq<char>,
)
    requires
        p.inv(),
        0 <= i < j < p.started,
        p.accepted[i] == submit_model(url),
        p.accepted[j] == resolve_model(key_of(url)),
        forall|n: int| i < n < j ==> !writes(#[trigger] p.accepted[n], key_of(url)),
    ensures
        reply_at(s, p.executed(), j) == ReplyModel::Found(url),
{
    let e = p.executed();
    assert forall|n: int| i < n < j implies !writes(#[trigger] e[n], key_of(url)) by {
        assert(e[n] == p.accepted[n]);
    }
    lemma_read_after_write(s, e, i, j, url);
}

proof fn lemma_absent_until(s: StoreModel, cmds: Seq<CommandModel>, m: int, key: Seq<char>)
    requires
        0 <= m <= cmds.len(),
        !s.contains_key(key),
        forall|n: int| 0 <= n < m ==> !writes(#[trigger] cmds[n], key),
    ensures
        !store_after(s, cmds.take(m)).contains_key(key),
    decreases m,
{
    let t = cmds.take(m);
    if m > 0 {
        assert(t.drop_last() =~= cmds.take(m - 1));
        assert(t.last() == cmds[m - 1]);
        lemma_absent_until(s, cmds, m - 1, key);
    } else {
        assert(t =~= Seq::<CommandModel>::empty());
    }
}

/// A read of a key that nothing has written gives not-found: an outcome of
/// its own, not a failure.
pub proof fn lemma_not_found(s: StoreModel, cmds: Seq<CommandModel>, j: int, key: Seq<char>)
    requires
        0 <= j < cmds.len(),
        !s.contains_key(key),
        cmds[j] == resolve_model(key),
        forall|n: int| 0 <= n < j ==> !writes(#[trigger] cmds[n], key),
    ensures
        reply_at(s, cmds, j) == ReplyModel::NotFound,
{
    lemma_absent_until(s, cmds, j, key);
}

} // verus!
