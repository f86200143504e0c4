//! Laws of the port lifecycle that relate successive operations, stated over
//! the outcomes that the operations' contracts give.

use vstd::prelude::*;
use crate::command::{
    cancel_read_post, close_all_post, close_post, force_close_post, open_post, read_post,
};
use crate::config::PortConfig;
use crate::error::Error;
use crate::reader::ReaderTask;
use crate::state::RegistryView;

verus! {

/// Opening an identifier a second time right after it was opened is refused
/// with `AlreadyOpen`, and the registry keeps the first handle with its
/// configuration. (A first `open` whose device failed to open left nothing to
/// refuse.)
pub proof fn lemma_open_twice(
    pre: RegistryView,
    id: Seq<char>,
    first: PortConfig,
    second: PortConfig,
    mid: RegistryView,
    post: RegistryView,
    r1: Result<(), Error>,
    r2: Result<(), Error>,
)
    requires
        open_post(pre, id, first, mid, r1),
        open_post(mid, id, second, post, r2),
        !(r1 matches Err(Error::OpenFailed(_))),
    ensures
        r2 == Err::<(), Error>(Error::AlreadyOpen),
        post == mid,
        post.contains_key(id),
        r1 is Ok ==> post[id].config == first && !post[id].streaming,
{
}

/// On an identifier that is not open, `close` fails with `NotOpen` and leaves
/// the registry as it was, while `force_close` succeeds.
pub proof fn lemma_close_unopened(
    pre: RegistryView,
    id: Seq<char>,
    after_close: RegistryView,
    closed: Result<(), Error>,
    after_force: RegistryView,
    forced: Result<(), Error>,
)
    requires
        !pre.contains_key(id),
        close_post(pre, id, after_close, closed),
        force_close_post(pre, id, after_force, forced),
    ensures
        closed == Err::<(), Error>(Error::NotOpen),
        after_close == pre,
        forced is Ok,
        after_force == pre,
{
    assert(pre.remove(id) =~= pre);
}

/// Two `read`s in a row on an open port start at most one reader; once the
/// first has started one, or one streamed already, the second is a no-op.
pub proof fn lemma_read_twice<H>(
    pre: RegistryView,
    id: Seq<char>,
    mid: RegistryView,
    post: RegistryView,
    r1: Result<Option<ReaderTask<H>>, Error>,
    r2: Result<Option<ReaderTask<H>>, Error>,
)
    requires
        pre.contains_key(id),
        read_post(pre, id, mid, r1),
        read_post(mid, id, post, r2),
    ensures
        !(r1 matches Ok(Some(_)) && r2 matches Ok(Some(_))),
        r1 is Ok ==> r2 == Ok::<Option<ReaderTask<H>>, Error>(None) && post == mid && post[id].streaming,
{
}

/// After a `read` and a `cancel_read`, the port is idle, and a further `read`
/// starts a fresh reader; it fails only when the device handle cannot be
/// duplicated.
pub proof fn lemma_read_after_cancel<H>(
    pre: RegistryView,
    id: Seq<char>,
    s1: RegistryView,
    s2: RegistryView,
    s3: RegistryView,
    r1: Result<Option<ReaderTask<H>>, Error>,
    r2: Result<(), Error>,
    r3: Result<Option<ReaderTask<H>>, Error>,
)
    requires
        pre.contains_key(id),
        read_post(pre, id, s1, r1),
        cancel_read_post(s1, id, s2, r2),
        read_post(s2, id, s3, r3),
    ensures
        r2 is Ok,
        !s2[id].streaming,
        s3.contains_key(id),
        (r3 matches Ok(Some(_)) && s3[id].streaming) || (r3 matches Err(Error::CloneFailed(_)) && s3 == s2),
        s3[id].config == pre[id].config,
{
}

/// `close_all` leaves no port open, so no reader streams afterwards; it
/// reports no error when no reader streamed before.
pub proof fn lemma_close_all_empties(pre: RegistryView, post: RegistryView, r: Result<(), Error>)
    requires
        close_all_post(pre, post, r),
    ensures
        forall|id: Seq<char>| !post.contains_key(id),
        post.len() == 0,
        (forall|id: Seq<char>| pre.contains_key(id) ==> !(#[trigger] pre[id]).streaming) ==> r is Ok,
{
}

} // verus!
