use vstd::prelude::*;
use crate::config::PortConfig;
use crate::device::SerialDevice;
use std::sync::mpsc::Sender;

pub use crate::error::InvokeResult;

verus! {

/// Every write handed to a port's device through the registry, in order: the
/// bytes handed over, and what the device answered.
pub type WriteLog = Seq<(Seq<u8>, Result<usize, String>)>;

/// What the registry knows of one open port: the configuration its handle was
/// opened with, whether a reader streams from it, and the writes made to it.
pub struct PortView {
    pub config: PortConfig,
    pub streaming: bool,
    pub writes: WriteLog,
}

/// The registry as a map from port identifier to what it knows of the port.
pub type RegistryView = Map<Seq<char>, PortView>;

/// One open port: its identifier, configuration and handle, and the stop
/// sender of its reader while one streams.
pub struct SerialportInfo<H> {
    pub path: String,
    pub config: PortConfig,
    pub serialport: H,
    pub sender: Option<Sender<usize>>,
    pub writes: Ghost<WriteLog>,
}

impl<H> SerialportInfo<H> {
    pub open spec fn port_view(&self) -> PortView {
        PortView { config: self.config, streaming: self.sender is Some, writes: self.writes@ }
    }
}

/// A chunk of bytes read from a port, as delivered to the event sink.
#[derive(Debug, Clone, PartialEq, Eq)]
pub struct ReadData {
    pub data: Vec<u8>,
    pub size: usize,
}

/// The registry of open ports, at most one entry per identifier.
///
/// The entries stand in a `Vec` searched by identifier rather than in a std
/// map: the registry must take entries out and change them in place, and the
/// specified std maps keyed by a `String` offer no mutable lookup and no
/// removal that hands the value back. `wf` keeps the identifiers unique.
pub struct SerialportState<H> {
    serialports: Vec<SerialportInfo<H>>,
}

impl<H> View for SerialportState<H> {
    type V = RegistryView;

    closed spec fn view(&self) -> RegistryView {
        Map::new(
            |k: Seq<char>| self.has(k),
            |k: Seq<char>| self.serialports@[self.index_of(k)].port_view(),
        )
    }
}

impl<H> SerialportState<H> {
    spec fn key_at(&self, i: int) -> Seq<char> {
        self.serialports@[i].path@
    }

    spec fn has(&self, k: Seq<char>) -> bool {
        exists|i: int| 0 <= i < self.serialports@.len() && #[trigger] self.key_at(i) == k
    }

    spec fn index_of(&self, k: Seq<char>) -> int {
        choose|i: int| 0 <= i < self.serialports@.len() && #[trigger] self.key_at(i) == k
    }

    /// No identifier occurs twice.
    pub closed spec fn wf(&self) -> bool {
        forall|i: int, j: int|
            0 <= i < self.serialports@.len() && 0 <= j < self.serialports@.len() && i != j
                ==> #[trigger] self.key_at(i) != #[trigger] self.key_at(j)
    }

    proof fn lemma_view_at(&self, i: int)
        requires
            self.wf(),
            0 <= i < self.serialports@.len(),
        ensures
            self@.contains_key(self.key_at(i)),
            self@[self.key_at(i)] == self.serialports@[i].port_view(),
    {
        assert(self.has(self.key_at(i)));
        let j = self.index_of(self.key_at(i));
        assert(self.key_at(j) == self.key_at(i));
    }

    /// Every entry is in the view under its own identifier.
    proof fn lemma_view_all(&self)
        requires
            self.wf(),
        ensures
            forall|i: int| 0 <= i < self.serialports@.len() ==>
                self@.contains_key(#[trigger] self.serialports@[i].path@)
                && self@[self.serialports@[i].path@] == self.serialports@[i].port_view(),
    {
        assert forall|i: int| 0 <= i < self.serialports@.len() implies
            self@.contains_key(#[trigger] self.serialports@[i].path@)
            && self@[self.serialports@[i].path@] == self.serialports@[i].port_view() by {
            self.lemma_view_at(i);
        }
    }

    /// The view is the map `m` when `m` holds exactly the entries' keys, each
    /// with its entry's view.
    proof fn lemma_view_is(&self, m: RegistryView)
        requires
            self.wf(),
            forall|i: int| 0 <= i < self.serialports@.len() ==>
                #[trigger] m.contains_key(self.key_at(i)) && m[self.key_at(i)] == self.serialports@[i].port_view(),
            forall|k: Seq<char>| m.contains_key(k) ==> self.has(k),
        ensures
            self@ == m,
    {
        assert forall|k: Seq<char>| #[trigger] self@.contains_key(k) <==> m.contains_key(k) by {
            if self.has(k) {
                let i = self.index_of(k);
                assert(m.contains_key(self.key_at(i)));
            }
        }
        assert forall|k: Seq<char>| self@.contains_key(k) implies #[trigger] self@[k] == m[k] by {
            let i = self.index_of(k);
            self.lemma_view_at(i);
            assert(m.contains_key(self.key_at(i)));
        }
        assert(self@ =~= m);
    }

    /// An empty registry.
    pub fn new() -> (r: Self)
        ensures
            r.wf(),
            r@ == RegistryView::empty(),
    {
        let r = SerialportState { serialports: Vec::new() };
        assert(r@ =~= RegistryView::empty());
        r
    }

    /// The position of `path`'s entry, if there is one.
    fn find(&self, path: &String) -> (r: Option<usize>)
        requires
            self.wf(),
        ensures
            r is None <==> !self@.contains_key(path@),
            r matches Some(i) ==> i < self.serialports@.len() && self.key_at(i as int) == path@,
    {
        let mut i: usize = 0;
        while i < self.serialports.len()
            invariant
                i <= self.serialports@.len(),
                forall|j: int| 0 <= j < i ==> self.key_at(j) != path@,
            decreases self.serialports@.len() - i,
        {
            if self.serialports[i].path == *path {
                assert(self.key_at(i as int) == path@);
                return Some(i);
            }
            i = i + 1;
        }
        assert(!self.has(path@));
        None
    }

    /// Whether `path` is open.
    pub fn contains(&self, path: &String) -> (r: bool)
        requires
            self.wf(),
        ensures
            r == self@.contains_key(path@),
    {
        self.find(path).is_some()
    }

    /// Whether a reader streams from `path`; false when `path` is not open.
    pub fn is_streaming(&self, path: &String) -> (r: bool)
        requires
            self.wf(),
        ensures
            r == (self@.contains_key(path@) && self@[path@].streaming),
    {
        match self.find(path) {
            Some(i) => {
                proof { self.lemma_view_at(i as int); }
                self.serialports[i].sender.is_some()
            },
            None => false,
        }
    }

    /// The configuration `path` was opened with; `None` when it is not open.
    pub fn port_config(&self, path: &String) -> (r: Option<PortConfig>)
        requires
            self.wf(),
        ensures
            r == if self@.contains_key(path@) {
                Some(self@[path@].config)
            } else {
                None::<PortConfig>
            },
    {
        match self.find(path) {
            Some(i) => {
                proof { self.lemma_view_at(i as int); }
                Some(self.serialports[i].config)
            },
            None => None,
        }
    }

    /// The number of open ports.
    pub fn len(&self) -> (r: usize)
        requires
            self.wf(),
        ensures
            r == self@.len(),
    {
        proof { self.lemma_len(); }
        self.serialports.len()
    }

    /// Adds a port that is not open yet.
    pub fn insert_new(&mut self, path: String, config: PortConfig, serialport: H)
        requires
            old(self).wf(),
            !old(self)@.contains_key(path@),
        ensures
            final(self).wf(),
            final(self)@ == old(self)@.insert(path@, PortView { config, streaming: false, writes: Seq::empty() }),
    {
        let ghost pre = *self;
        let ghost key = path@;
        self.serialports.push(SerialportInfo { path, config, serialport, sender: None, writes: Ghost(Seq::empty()) });
        proof {
            let m = pre@.insert(key, PortView { config, streaming: false, writes: Seq::empty() });
            let n = self.serialports@.len() - 1;
            assert(self.key_at(n) == key);
            assert forall|i: int| 0 <= i < n implies #[trigger] self.key_at(i) == pre.key_at(i) by {}
            assert forall|i: int, j: int|
                0 <= i < self.serialports@.len() && 0 <= j < self.serialports@.len() && i != j
                    implies #[trigger] self.key_at(i) != #[trigger] self.key_at(j) by {
                if i < n && j < n {
                    assert(pre.key_at(i) != pre.key_at(j));
                } else if i < n {
                    assert(pre.has(pre.key_at(i)));
                } else if j < n {
                    assert(pre.has(pre.key_at(j)));
                }
            }
            assert forall|i: int| 0 <= i < self.serialports@.len() implies
                #[trigger] m.contains_key(self.key_at(i)) && m[self.key_at(i)] == self.serialports@[i].port_view() by {
                if i < n {
                    pre.lemma_view_at(i);
                }
            }
            assert forall|k: Seq<char>| m.contains_key(k) implies self.has(k) by {
                if k == key {
                    assert(self.key_at(n) == k);
                } else {
                    let i = pre.index_of(k);
                    assert(self.key_at(i) == k);
                }
            }
            self.lemma_view_is(m);
        }
    }

    /// Removes `path`'s entry and hands it back; `None` when `path` is not open.
    pub fn remove(&mut self, path: &String) -> (r: Option<SerialportInfo<H>>)
        requires
            old(self).wf(),
        ensures
            final(self).wf(),
            final(self)@ == old(self)@.remove(path@),
            r is Some <==> old(self)@.contains_key(path@),
            r matches Some(e) ==> e.path@ == path@ && e.port_view() == old(self)@[path@],
    {
        match self.find(path) {
            None => {
                proof { assert(self@.remove(path@) =~= self@); }
                None
            },
            Some(i) => {
                let ghost pre = *self;
                proof { pre.lemma_view_at(i as int); }
                let e = self.serialports.remove(i);
                proof {
                    let m = pre@.remove(path@);
                    let len = self.serialports@.len();
                    assert forall|j: int| 0 <= j < len implies #[trigger] self.key_at(j) == pre.key_at(
                        if j < i { j } else { j + 1 },
                    ) by {}
                    assert forall|a: int, b: int|
                        0 <= a < len && 0 <= b < len && a != b
                            implies #[trigger] self.key_at(a) != #[trigger] self.key_at(b) by {
                        let pa = if a < i { a } else { a + 1 };
                        let pb = if b < i { b } else { b + 1 };
                        assert(pre.key_at(pa) != pre.key_at(pb));
                    }
                    assert forall|j: int| 0 <= j < len implies
                        #[trigger] m.contains_key(self.key_at(j)) && m[self.key_at(j)] == self.serialports@[j].port_view() by {
                        let pj = if j < i { j } else { j + 1 };
                        pre.lemma_view_at(pj);
                        assert(pre.key_at(pj) != pre.key_at(i as int));
                    }
                    assert forall|k: Seq<char>| m.contains_key(k) implies self.has(k) by {
                        let pj = pre.index_of(k);
                        assert(pj != i);
                        let j = if pj < i { pj } else { pj - 1 };
                        assert(self.key_at(j) == k);
                    }
                    self.lemma_view_is(m);
                }
                Some(e)
            },
        }
    }

    /// After a change of entry `i` that keeps every key, the view changes at
    /// that key only.
    proof fn lemma_updated(&self, pre: Self, i: int)
        requires
            pre.wf(),
            0 <= i < pre.serialports@.len(),
            self.serialports@.len() == pre.serialports@.len(),
            forall|j: int| 0 <= j < pre.serialports@.len() ==> #[trigger] self.key_at(j) == pre.key_at(j),
            forall|j: int| 0 <= j < pre.serialports@.len() && j != i
                ==> #[trigger] self.serialports@[j].port_view() == pre.serialports@[j].port_view(),
        ensures
            self.wf(),
            self@ == pre@.insert(pre.key_at(i), self.serialports@[i].port_view()),
    {
        let m = pre@.insert(pre.key_at(i), self.serialports@[i].port_view());
        assert forall|a: int, b: int|
            0 <= a < self.serialports@.len() && 0 <= b < self.serialports@.len() && a != b
                implies #[trigger] self.key_at(a) != #[trigger] self.key_at(b) by {
            assert(pre.key_at(a) != pre.key_at(b));
        }
        assert forall|j: int| 0 <= j < self.serialports@.len() implies
            #[trigger] m.contains_key(self.key_at(j)) && m[self.key_at(j)] == self.serialports@[j].port_view() by {
            pre.lemma_view_at(j);
            if j != i {
                assert(pre.key_at(j) != pre.key_at(i));
            }
        }
        assert forall|k: Seq<char>| m.contains_key(k) implies self.has(k) by {
            if k == pre.key_at(i) {
                assert(self.key_at(i) == k);
            } else {
                let j = pre.index_of(k);
                assert(self.key_at(j) == k);
            }
        }
        self.lemma_view_is(m);
    }

    /// Stores the stop sender of a reader that now streams from `path`.
    pub fn set_sender(&mut self, path: &String, sender: Sender<usize>)
        requires
            old(self).wf(),
            old(self)@.contains_key(path@),
        ensures
            final(self).wf(),
            final(self)@ == old(self)@.insert(
                path@,
                PortView { config: old(self)@[path@].config, streaming: true, writes: old(self)@[path@].writes },
            ),
    {
        let ghost pre = *self;
        let i = self.find(path).unwrap();
        proof { pre.lemma_view_at(i as int); }
        self.serialports[i].sender = Some(sender);
        proof { self.lemma_updated(pre, i as int); }
    }

    /// Takes the stop sender out of `path`'s entry: the port no longer streams.
    pub fn take_sender(&mut self, path: &String) -> (r: Option<Sender<usize>>)
        requires
            old(self).wf(),
            old(self)@.contains_key(path@),
        ensures
            final(self).wf(),
            final(self)@ == old(self)@.insert(
                path@,
                PortView { config: old(self)@[path@].config, streaming: false, writes: old(self)@[path@].writes },
            ),
            r is Some <==> old(self)@[path@].streaming,
    {
        let ghost pre = *self;
        let i = self.find(path).unwrap();
        proof { pre.lemma_view_at(i as int); }
        let r = self.serialports[i].sender.take();
        proof { self.lemma_updated(pre, i as int); }
        r
    }

    /// Empties the registry and hands back every entry it held.
    pub fn take_all(&mut self) -> (r: Vec<SerialportInfo<H>>)
        requires
            old(self).wf(),
        ensures
            final(self).wf(),
            final(self)@ == RegistryView::empty(),
            forall|i: int| 0 <= i < r@.len() ==>
                old(self)@.contains_key(#[trigger] r@[i].path@)
                && old(self)@[r@[i].path@] == r@[i].port_view(),
    {
        let ghost pre = *self;
        let mut all: Vec<SerialportInfo<H>> = Vec::new();
        std::mem::swap(&mut all, &mut self.serialports);
        proof {
            assert(self@ =~= RegistryView::empty());
            pre.lemma_view_all();
            assert(pre == *old(self));
            assert(forall|i: int| 0 <= i < all@.len() ==>
                old(self)@.contains_key(#[trigger] all@[i].path@)
                && old(self)@[all@[i].path@] == all@[i].port_view());
        }
        all
    }

    proof fn lemma_len(&self)
        requires
            self.wf(),
        ensures
            self@.dom().len() == self.serialports@.len(),
    {
        let keys = Seq::new(self.serialports@.len(), |i: int| self.key_at(i));
        assert(keys.no_duplicates());
        assert(self@.dom() =~= keys.to_set()) by {
            assert forall|k: Seq<char>| self@.dom().contains(k) implies keys.to_set().contains(k) by {
                let i = self.index_of(k);
                assert(keys[i] == k);
            }
            assert forall|k: Seq<char>| keys.to_set().contains(k) implies self@.dom().contains(k) by {
                let i = choose|i: int| 0 <= i < keys.len() && keys[i] == k;
                assert(self.key_at(i) == k);
            }
        }
        keys.unique_seq_to_set();
    }
}

impl<H: SerialDevice> SerialportState<H> {
    /// A second handle on `path`'s device; `None` when `path` is not open.
    pub fn clone_handle(&self, path: &String) -> (r: Option<Result<H, String>>)
        requires
            self.wf(),
        ensures
            r is None <==> !self@.contains_key(path@),
    {
        match self.find(path) {
            Some(i) => Some(self.serialports[i].serialport.try_clone_device()),
            None => None,
        }
    }

    /// Writes `data` to `path`'s device and records the write and the device's
    /// answer in the port's log; `None` when `path` is not open.
    pub fn write_to(&mut self, path: &String, data: &[u8]) -> (r: Option<Result<usize, String>>)
        requires
            old(self).wf(),
        ensures
            final(self).wf(),
            r is None <==> !old(self)@.contains_key(path@),
            r is None ==> final(self)@ == old(self)@,
            r matches Some(res) ==> {
                &&& final(self)@ == old(self)@.insert(
                    path@,
                    PortView {
                        config: old(self)@[path@].config,
                        streaming: old(self)@[path@].streaming,
                        writes: old(self)@[path@].writes.push((data@, res)),
                    },
                )
                &&& res matches Ok(n) ==> n <= data@.len()
            },
    {
        match self.find(path) {
            Some(i) => {
                let ghost pre = *self;
                proof { pre.lemma_view_at(i as int); }
                let res = self.serialports[i].serialport.write_bytes(data);
                let ghost log = self.serialports@[i as int].writes@.push((data@, res));
                self.serialports[i].writes = Ghost(log);
                proof { self.lemma_updated(pre, i as int); }
                Some(res)
            },
            None => None,
        }
    }
}

} // verus!
