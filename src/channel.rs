//! File descriptors that a client passed over the control channel, by name.

use vstd::prelude::*;
use vstd::utf8::encode_utf8;

verus! {

/// The descriptor stored under `name` in `t`, the latest entry winning.
pub open spec fn fd_lookup(t: Seq<(Seq<u8>, i32)>, name: Seq<u8>) -> Option<i32>
    decreases t.len(),
{
    if t.len() == 0 {
        None
    } else if t.last().0 == name {
        Some(t.last().1)
    } else {
        fd_lookup(t.drop_last(), name)
    }
}

proof fn lemma_lookup_push(t: Seq<(Seq<u8>, i32)>, name: Seq<u8>, fd: i32)
    ensures
        fd_lookup(t.push((name, fd)), name) == Some(fd),
        forall|k: Seq<u8>|
            k != name ==> #[trigger] fd_lookup(t.push((name, fd)), k) == fd_lookup(t, k),
{
    assert(t.push((name, fd)).drop_last() =~= t);
}

proof fn lemma_lookup_update(t: Seq<(Seq<u8>, i32)>, idx: int, name: Seq<u8>, fd: i32)
    requires
        0 <= idx < t.len(),
        t[idx].0 == name,
        forall|j: int| idx < j < t.len() ==> (#[trigger] t[j]).0 != name,
    ensures
        fd_lookup(t.update(idx, (name, fd)), name) == Some(fd),
        forall|k: Seq<u8>|
            k != name ==> #[trigger] fd_lookup(t.update(idx, (name, fd)), k) == fd_lookup(t, k),
    decreases t.len(),
{
    let u = t.update(idx, (name, fd));
    if idx == t.len() - 1 {
        assert(u.drop_last() =~= t.drop_last());
    } else {
        let n = t.len() - 1;
        assert(u.drop_last() =~= t.drop_last().update(idx, (name, fd)));
        assert(t[n].0 != name);
        lemma_lookup_update(t.drop_last(), idx, name, fd);
        assert forall|k: Seq<u8>| k != name implies #[trigger] fd_lookup(u, k) == fd_lookup(t, k) by {
            assert(fd_lookup(t.drop_last().update(idx, (name, fd)), k) == fd_lookup(t.drop_last(), k));
        }
    }
}

/// Whether two byte strings are equal.
pub fn bytes_eq(a: &[u8], b: &[u8]) -> (r: bool)
    ensures
        r == (a@ == b@),
{
    if a.len() != b.len() {
        return false;
    }
    let mut i: usize = 0;
    while i < a.len()
        invariant
            a@.len() == b@.len(),
            0 <= i <= a@.len(),
            forall|k: int| 0 <= k < i ==> a@[k] == b@[k],
        decreases a@.len() - i,
    {
        if a[i] != b[i] {
            return false;
        }
        i = i + 1;
    }
    proof {
        assert(a@ =~= b@);
    }
    true
}

/// A copy of the bytes of `s` from `start` on.
pub fn suffix_vec(s: &[u8], start: usize) -> (r: Vec<u8>)
    requires
        start <= s@.len(),
    ensures
        r@ == s@.skip(start as int),
{
    let mut out: Vec<u8> = Vec::new();
    let mut i: usize = start;
    while i < s.len()
        invariant
            start <= i <= s@.len(),
            out@ == s@.subrange(start as int, i as int),
        decreases s@.len() - i,
    {
        out.push(s[i]);
        i = i + 1;
        proof {
            assert(out@ =~= s@.subrange(start as int, i as int));
        }
    }
    proof {
        assert(out@ =~= s@.skip(start as int));
    }
    out
}

/// The named file descriptors of a control-channel session.
pub struct QmpChannel {
    fds: Vec<(Vec<u8>, i32)>,
}

impl QmpChannel {
    /// The stored `(name, fd)` pairs, names as UTF-8 bytes.
    pub closed spec fn table(&self) -> Seq<(Seq<u8>, i32)> {
        self.fds@.map_values(|e: (Vec<u8>, i32)| (e.0@, e.1))
    }

    /// A channel with no descriptors.
    pub fn new() -> (r: Self)
        ensures
            forall|k: Seq<u8>| #[trigger] fd_lookup(r.table(), k) is None,
    {
        let r = QmpChannel { fds: Vec::new() };
        proof {
            assert(r.table().len() == 0);
        }
        r
    }

    /// Stores `fd` under `name`, replacing what was stored there.
    pub fn set_fd(&mut self, name: String, fd: i32)
        ensures
            fd_lookup(final(self).table(), encode_utf8(name@)) == Some(fd),
            forall|k: Seq<u8>|
                k != encode_utf8(name@) ==> #[trigger] fd_lookup(final(self).table(), k)
                    == fd_lookup(old(self).table(), k),
    {
        let key_bytes = name.as_str().as_bytes();
        let key = suffix_vec(key_bytes, 0);
        let ghost t = self.table();
        proof {
            assert(key@ =~= encode_utf8(name@));
        }
        let mut found: Option<usize> = None;
        let mut i: usize = 0;
        while i < self.fds.len()
            invariant
                t == self.table(),
                0 <= i <= t.len(),
                found matches Some(j) ==> j < i && t[j as int].0 == key@,
                forall|j: int|
                    (if let Some(f) = found {
                        f < j
                    } else {
                        0 <= j
                    }) && j < i ==> (#[trigger] t[j]).0 != key@,
            decreases t.len() - i,
        {
            proof {
                assert(t[i as int] == (self.fds@[i as int].0@, self.fds@[i as int].1));
            }
            if bytes_eq(self.fds[i].0.as_slice(), key.as_slice()) {
                found = Some(i);
            }
            i = i + 1;
        }
        match found {
            Some(j) => {
                proof {
                    lemma_lookup_update(t, j as int, key@, fd);
                }
                self.fds.set(j, (key, fd));
                proof {
                    assert(self.table() =~= t.update(j as int, (encode_utf8(name@), fd)));
                }
            },
            None => {
                proof {
                    lemma_lookup_push(t, key@, fd);
                }
                self.fds.push((key, fd));
                proof {
                    assert(self.table() =~= t.push((encode_utf8(name@), fd)));
                }
            },
        }
    }

    /// The descriptor stored under the name whose UTF-8 bytes are `name`.
    pub fn get_fd_bytes(&self, name: &[u8]) -> (r: Option<i32>)
        ensures
            r == fd_lookup(self.table(), name@),
    {
        let mut i: usize = self.fds.len();
        proof {
            assert(self.table().take(i as int) =~= self.table());
        }
        while i > 0
            invariant
                0 <= i <= self.table().len(),
                fd_lookup(self.table(), name@) == fd_lookup(self.table().take(i as int), name@),
            decreases i,
        {
            let ghost t = self.table().take(i as int);
            proof {
                assert(t.last() == (self.fds@[i - 1].0@, self.fds@[i - 1].1));
                assert(t.drop_last() =~= self.table().take(i - 1));
            }
            if bytes_eq(self.fds[i - 1].0.as_slice(), name) {
                return Some(self.fds[i - 1].1);
            }
            i = i - 1;
        }
        None
    }

    /// The descriptor stored under `name`.
    pub fn get_fd(&self, name: &str) -> (r: Option<i32>)
        ensures
            r == fd_lookup(self.table(), encode_utf8(name@)),
    {
        self.get_fd_bytes(name.as_bytes())
    }
}

} // verus!
