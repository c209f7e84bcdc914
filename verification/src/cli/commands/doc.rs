//! The index of documents: its entries, where it is kept, and lookup by
//! identifier or by hash.

use crate::error::AppError;
use crate::text::text_eq;
use vstd::prelude::*;
use vstd::string::StringExecFns;

verus! {

/// One document in the index.
#[derive(Debug)]
pub struct DocEntry {
    pub logical_id: String,
    pub hash_hex: String,
    pub label: Option<String>,
    pub local_path: Option<String>,
    pub arweave_tx: Option<String>,
    pub owner_wallet: Option<String>,
}

/// The components of the documents directory.
pub open spec fn docs_root_of(home: Option<String>) -> Seq<Seq<char>> {
    seq![
        match home {
            Some(h) => h@,
            None => "."@,
        },
        ".tidbit/docs"@,
    ]
}

/// The documents directory, under the home directory or under `.`
/// without one.
pub fn docs_root(home: Option<String>) -> (dir: Vec<String>)
    ensures
        dir.deep_view() == docs_root_of(home),
{
    let mut dir: Vec<String> = Vec::new();
    match home {
        Some(h) => dir.push(h),
        None => dir.push(".".to_owned()),
    }
    dir.push(".tidbit/docs".to_owned());
    assert(dir.deep_view() =~= docs_root_of(home));
    dir
}

/// The directory of the stored documents.
pub fn docs_data_dir(home: Option<String>) -> (dir: Vec<String>)
    ensures
        dir.deep_view() == docs_root_of(home).push("data"@),
{
    let mut d = docs_root(home);
    d.push("data".to_owned());
    assert(d.deep_view() =~= docs_root_of(home).push("data"@));
    d
}

/// The file of the index.
pub fn docs_index_path(home: Option<String>) -> (path: Vec<String>)
    ensures
        path.deep_view() == docs_root_of(home).push("index.json"@),
{
    let mut d = docs_root(home);
    d.push("index.json".to_owned());
    assert(d.deep_view() =~= docs_root_of(home).push("index.json"@));
    d
}

/// The first position from `start` whose entry has the given identifier.
pub open spec fn position_by_id(list: Seq<DocEntry>, id: Seq<char>, start: int) -> Option<int>
    decreases list.len() - start,
{
    if start < 0 || start >= list.len() {
        None
    } else if list[start].logical_id@ == id {
        Some(start)
    } else {
        position_by_id(list, id, start + 1)
    }
}

/// The first position from `start` whose entry has the given hash.
pub open spec fn position_by_hash(list: Seq<DocEntry>, hash: Seq<char>, start: int) -> Option<int>
    decreases list.len() - start,
{
    if start < 0 || start >= list.len() {
        None
    } else if list[start].hash_hex@ == hash {
        Some(start)
    } else {
        position_by_hash(list, hash, start + 1)
    }
}

/// What a lookup finds: by identifier where one is given, else by hash
/// where one is given; the position of the first match, or the message
/// of the refusal.
pub open spec fn lookup_of(list: Seq<DocEntry>, id: Option<String>, hash: Option<String>) -> Result<
    int,
    Seq<char>,
> {
    match id {
        Some(i) => match position_by_id(list, i@, 0) {
            Some(p) => Ok(p),
            None => Err("No doc with id="@ + i@),
        },
        None => match hash {
            Some(h) => match position_by_hash(list, h@, 0) {
                Some(p) => Ok(p),
                None => Err("No doc with hash="@ + h@),
            },
            None => Err("Must specify --id or --hash"@),
        },
    }
}

/// Finds the position of a document by identifier, or else by hash.
/// Every refusal is a `BadRequest` error.
pub fn find_doc(list: &[DocEntry], id: &Option<String>, hash: &Option<String>) -> (r: Result<usize, AppError>)
    ensures
        match r {
            Ok(p) => lookup_of(list@, *id, *hash) == Ok::<int, Seq<char>>(p as int) && p < list@.len(),
            Err(e) => e is BadRequest && lookup_of(list@, *id, *hash) == Err::<int, Seq<char>>(e.detail()),
        },
{
    match id {
        Some(wanted) => {
            let mut i: usize = 0;
            while i < list.len()
                invariant
                    i <= list.len(),
                    *id == Some(*wanted),
                    position_by_id(list@, wanted@, 0) == position_by_id(list@, wanted@, i as int),
                decreases list.len() - i,
            {
                if list[i].logical_id == *wanted {
                    return Ok(i);
                }
                i += 1;
            }
            Err(AppError::BadRequest(String::from_str("No doc with id=").concat(wanted.as_str())))
        },
        None => match hash {
            Some(wanted) => {
                let mut i: usize = 0;
                while i < list.len()
                    invariant
                        i <= list.len(),
                        *id is None,
                        *hash == Some(*wanted),
                        position_by_hash(list@, wanted@, 0) == position_by_hash(list@, wanted@, i as int),
                    decreases list.len() - i,
                {
                    if list[i].hash_hex == *wanted {
                        return Ok(i);
                    }
                    i += 1;
                }
                Err(AppError::BadRequest(String::from_str("No doc with hash=").concat(wanted.as_str())))
            },
            None => Err(AppError::BadRequest("Must specify --id or --hash".to_owned())),
        },
    }
}

/// Finds a document by identifier, or else by hash, and hands it out for
/// change. The list stays as it is but for that entry.
pub fn find_doc_mut<'a>(list: &'a mut [DocEntry], id: &Option<String>, hash: &Option<String>) -> (r: Result<
    &'a mut DocEntry,
    AppError,
>)
    ensures
        match r {
            Ok(entry) => {
                &&& lookup_of(old(list)@, *id, *hash) matches Ok(p)
                &&& 0 <= p < old(list)@.len()
                &&& *entry == old(list)@[p]
                &&& final(list)@ == old(list)@.update(p, *final(entry))
            },
            Err(e) => {
                &&& e is BadRequest
                &&& lookup_of(old(list)@, *id, *hash) == Err::<int, Seq<char>>(e.detail())
                &&& final(list)@ == old(list)@
            },
        },
{
    match find_doc(list, id, hash) {
        Ok(p) => Ok(&mut list[p]),
        Err(e) => Err(e),
    }
}

/// Whether a store setting asks for an anchor: `arweave` and `both` do.
pub fn anchors_to_arweave(store: &str) -> (b: bool)
    ensures
        b == (store@ == "arweave"@ || store@ == "both"@),
{
    text_eq(store, "arweave") || text_eq(store, "both")
}

/// The documents of one owner, in the order they stand. Documents
/// without an owner belong to nobody.
pub open spec fn owned_by(docs: Seq<DocEntry>, wallet: Seq<char>) -> Seq<DocEntry>
    decreases docs.len(),
{
    if docs.len() == 0 {
        Seq::<DocEntry>::empty()
    } else {
        let rest = owned_by(docs.drop_last(), wallet);
        if docs.last().owner_wallet matches Some(w) && w@ == wallet {
            rest.push(docs.last())
        } else {
            rest
        }
    }
}

/// Whether a document belongs to a wallet.
pub fn is_owned_by(doc: &DocEntry, wallet: &str) -> (b: bool)
    ensures
        b == (doc.owner_wallet matches Some(w) && w@ == wallet@),
{
    match &doc.owner_wallet {
        Some(w) => text_eq(w.as_str(), wallet),
        None => false,
    }
}

/// Keeps the documents of one owner and drops the others.
pub fn retain_owned(docs: Vec<DocEntry>, wallet: &str) -> (kept: Vec<DocEntry>)
    ensures
        kept@ == owned_by(docs@, wallet@),
{
    let mut docs = docs;
    let ghost all = docs@;
    let mut kept: Vec<DocEntry> = Vec::new();
    let mut rest: Vec<DocEntry> = Vec::new();
    // Entries are taken from the end, so they come out reversed; a second
    // pass restores the order.
    while docs.len() > 0
        invariant
            docs@ == all.subrange(0, docs@.len() as int),
            docs@.len() <= all.len(),
            rest@.reverse() == owned_by_from(all, wallet@, docs@.len() as int),
        decreases docs.len(),
    {
        let ghost n = docs@.len() as int;
        let entry = docs.pop().unwrap();
        proof {
            assert(entry == all[n - 1]);
            assert(docs@ =~= all.subrange(0, n - 1));
        }
        if is_owned_by(&entry, wallet) {
            rest.push(entry);
            assert(rest@.reverse() =~= seq![entry] + owned_by_from(all, wallet@, n));
        }
    }
    proof {
        lemma_owned_by_from(all, wallet@, 0);
    }
    let ghost reversed = rest@;
    while rest.len() > 0
        invariant
            rest@ == reversed.subrange(0, rest@.len() as int),
            rest@.len() <= reversed.len(),
            kept@ == reversed.reverse().subrange(0, reversed.len() - rest@.len()),
        decreases rest.len(),
    {
        let ghost n = rest@.len() as int;
        let entry = rest.pop().unwrap();
        kept.push(entry);
        proof {
            assert(rest@ =~= reversed.subrange(0, n - 1));
            assert(kept@ =~= reversed.reverse().subrange(0, reversed.len() - (n - 1)));
        }
    }
    assert(kept@ =~= reversed.reverse());
    kept
}

/// The owned documents among those from position `start` on.
pub open spec fn owned_by_from(docs: Seq<DocEntry>, wallet: Seq<char>, start: int) -> Seq<DocEntry>
    decreases docs.len() - start,
{
    if start < 0 || start >= docs.len() {
        Seq::<DocEntry>::empty()
    } else if docs[start].owner_wallet matches Some(w) && w@ == wallet {
        seq![docs[start]] + owned_by_from(docs, wallet, start + 1)
    } else {
        owned_by_from(docs, wallet, start + 1)
    }
}

/// Collecting from a position on gives what collecting the whole list
/// gives, less what the entries before the position contribute.
pub proof fn lemma_owned_by_from(docs: Seq<DocEntry>, wallet: Seq<char>, start: int)
    requires
        0 <= start <= docs.len(),
    ensures
        owned_by(docs.subrange(0, start), wallet) + owned_by_from(docs, wallet, start) == owned_by(docs, wallet),
    decreases docs.len() - start,
{
    if start == docs.len() {
        assert(docs.subrange(0, start) =~= docs);
        assert(owned_by(docs, wallet) + Seq::<DocEntry>::empty() =~= owned_by(docs, wallet));
    } else {
        lemma_owned_by_from(docs, wallet, start + 1);
        let next = docs.subrange(0, start + 1);
        assert(next.drop_last() =~= docs.subrange(0, start));
        assert(next.last() == docs[start]);
        let head = owned_by(docs.subrange(0, start), wallet);
        let tail = owned_by_from(docs, wallet, start + 1);
        if docs[start].owner_wallet matches Some(w) && w@ == wallet {
            assert(head + (seq![docs[start]] + tail) =~= head.push(docs[start]) + tail);
        }
    }
}

} // verus!
