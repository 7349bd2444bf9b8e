//! Disk persistence of index shards: each shard is a file named by its key
//! in lower-case hexadecimal, holding the shard's bytes. On boot every file
//! whose name decodes and whose content is not empty is loaded back.

use vstd::prelude::*;
use vstd::utf8::{encode_utf8, is_ascii_chars, is_ascii_chars_encode_utf8};
use crate::governance::{hex_decode, hex_decode_spec};
use crate::codec::{ascii_bytes, hex_value};
use crate::storage::{hex_encode, hex_lower, hex_lower_digit};

verus! {

/// The store of shard files under one directory.
pub struct ShardStore {
    dir: String,
}

/// The shard a file holds: its name decoded from hexadecimal is the key, and
/// an empty file holds none.
pub open spec fn shard_of(name: Seq<char>, value: Seq<u8>) -> Option<(Seq<u8>, Seq<u8>)> {
    match hex_decode_spec(encode_utf8(name)) {
        Some(k) => if value.len() > 0 {
            Some((k, value))
        } else {
            None
        },
        None => None,
    }
}

/// The shards that a list of files (name and content) holds, in file order.
pub open spec fn loadable(files: Seq<(Seq<char>, Seq<u8>)>) -> Seq<(Seq<u8>, Seq<u8>)>
    decreases files.len(),
{
    if files.len() == 0 {
        seq![]
    } else {
        let rest = loadable(files.drop_last());
        match shard_of(files.last().0, files.last().1) {
            Some(e) => rest.push(e),
            None => rest,
        }
    }
}

impl ShardStore {
    /// The store whose files live in `dir`.
    pub fn new(dir: String) -> (s: Self)
        ensures
            s.dir_view() == dir@,
    {
        ShardStore { dir }
    }

    pub closed spec fn dir_view(&self) -> Seq<char> {
        self.dir@
    }

    /// The directory of the shard files.
    pub fn dir(&self) -> (d: &str)
        ensures
            d@ == self.dir_view(),
    {
        self.dir.as_str()
    }

    /// The name of the file that holds the shard under `key`.
    pub fn file_name_for(&self, key: &[u8]) -> (name: String)
        ensures
            name@ == hex_lower(key@),
    {
        hex_encode(key)
    }

    /// The shard one file holds, if any (see `shard_of`).
    pub fn shard_from_file(name: &str, value: Vec<u8>) -> (r: Option<(Vec<u8>, Vec<u8>)>)
        ensures
            match shard_of(name@, value@) {
                Some(e) => r matches Some(p) && p.0@ == e.0 && p.1@ == e.1,
                None => r is None,
            },
    {
        match hex_decode(name) {
            Some(key) => {
                if value.len() > 0 {
                    Some((key, value))
                } else {
                    None
                }
            },
            None => None,
        }
    }

    /// The shards that the files hold, in file order: files whose name is
    /// not hexadecimal, or that are empty, are skipped.
    pub fn shards_from_files(files: &Vec<(String, Vec<u8>)>) -> (r: Vec<(Vec<u8>, Vec<u8>)>)
        ensures
            r.deep_view() == loadable(files.deep_view()),
    {
        let mut out: Vec<(Vec<u8>, Vec<u8>)> = Vec::new();
        let mut i: usize = 0;
        while i < files.len()
            invariant
                i <= files.len(),
                out.deep_view() == loadable(files.deep_view().take(i as int)),
            decreases files.len() - i,
        {
            let entry = &files[i];
            let got = Self::shard_from_file(entry.0.as_str(), entry.1.clone());
            proof {
                let fs = files.deep_view();
                assert(fs.take(i + 1).drop_last() =~= fs.take(i as int));
                assert(fs.take(i + 1).last() == fs[i as int]);
                assert(fs[i as int] == (entry.0@, entry.1@));
            }
            match got {
                Some(e) => {
                    let ghost before = out.deep_view();
                    let ghost ev = e.deep_view();
                    assert(e.0.deep_view() =~= e.0@);
                    assert(e.1.deep_view() =~= e.1@);
                    out.push(e);
                    assert(out.deep_view() =~= before.push(ev));
                },
                None => {},
            }
            i += 1;
        }
        assert(files.deep_view().take(files.len() as int) =~= files.deep_view());
        out
    }
}


proof fn lemma_hex_lower_concat(a: Seq<u8>, b: Seq<u8>)
    ensures
        hex_lower(a + b) == hex_lower(a) + hex_lower(b),
    decreases b.len(),
{
    if b.len() == 0 {
        assert(a + b =~= a);
        assert(hex_lower(a) + hex_lower(b) =~= hex_lower(a));
    } else {
        lemma_hex_lower_concat(a, b.drop_last());
        assert((a + b).drop_last() =~= a + b.drop_last());
        assert((a + b).last() == b.last());
        let d = seq![hex_lower_digit(b.last() / 16), hex_lower_digit(b.last() % 16)];
        assert(hex_lower(a) + hex_lower(b.drop_last()) + d =~= hex_lower(a) + (hex_lower(b.drop_last()) + d));
    }
}

proof fn lemma_hex_lower_digit(n: u8)
    requires
        n < 16,
    ensures
        (hex_lower_digit(n) as u32) < 128,
        hex_value(hex_lower_digit(n) as u8) == Some(n),
{
    if n < 10 {
        assert(((n + 48) as char) as u32 == n + 48);
    } else {
        assert(((n + 87) as char) as u32 == n + 87);
    }
}

proof fn lemma_hex_lower_ascii(k: Seq<u8>)
    ensures
        is_ascii_chars(hex_lower(k)),
    decreases k.len(),
{
    if k.len() > 0 {
        lemma_hex_lower_ascii(k.drop_last());
        lemma_hex_lower_digit(k.last() / 16);
        lemma_hex_lower_digit(k.last() % 16);
        let a = hex_lower(k.drop_last());
        let d = seq![hex_lower_digit(k.last() / 16), hex_lower_digit(k.last() % 16)];
        assert forall|i: int| 0 <= i < (a + d).len() implies '\0' <= #[trigger] (a + d)[i] <= '\u{7f}' by {
            if i < a.len() {
                assert((a + d)[i] == a[i]);
            } else {
                assert((a + d)[i] == d[i - a.len()]);
            }
        }
    }
}

proof fn lemma_hex_lower_decodes(k: Seq<u8>)
    ensures
        hex_decode_spec(ascii_bytes(hex_lower(k))) == Some(k),
    decreases k.len(),
{
    if k.len() > 0 {
        let x = k[0];
        let rest = k.drop_first();
        assert(k =~= seq![x] + rest);
        lemma_hex_lower_concat(seq![x], rest);
        assert(seq![x].drop_last() =~= Seq::<u8>::empty());
        assert(hex_lower(Seq::<u8>::empty()) =~= Seq::<char>::empty());
        assert(seq![x].last() == x);
        let d = seq![hex_lower_digit(x / 16), hex_lower_digit(x % 16)];
        assert(hex_lower(seq![x]) =~= d);
        let bytes = ascii_bytes(hex_lower(k));
        let tail = ascii_bytes(hex_lower(rest));
        assert(bytes =~= ascii_bytes(d) + tail);
        lemma_hex_lower_digit(x / 16);
        lemma_hex_lower_digit(x % 16);
        assert(bytes[0] == hex_lower_digit(x / 16) as u8);
        assert(bytes[1] == hex_lower_digit(x % 16) as u8);
        assert(bytes.subrange(2, bytes.len() as int) =~= tail);
        lemma_hex_lower_decodes(rest);
        assert((x / 16) * 16 + x % 16 == x);
        assert(seq![x] + rest =~= k);
    }
}

/// Lower-case hexadecimal text decodes back to the bytes it was made from.
pub proof fn lemma_hex_round_trip(key: Seq<u8>)
    ensures
        hex_decode_spec(encode_utf8(hex_lower(key))) == Some(key),
{
    lemma_hex_lower_ascii(key);
    is_ascii_chars_encode_utf8(hex_lower(key));
    assert(encode_utf8(hex_lower(key)) =~= ascii_bytes(hex_lower(key)));
    lemma_hex_lower_decodes(key);
}

/// A shard written under `key` is loaded back under `key` with its bytes:
/// its file name decodes to the key. (Empty shards are not kept.)
pub proof fn lemma_shard_read_back(key: Seq<u8>, value: Seq<u8>)
    requires
        value.len() > 0,
    ensures
        shard_of(hex_lower(key), value) == Some((key, value)),
{
    lemma_hex_round_trip(key);
}

} // verus!
