use vstd::prelude::*;
use vstd::multiset::Multiset;

verus! {

#[verifier::external_type_specification]
#[verifier::external_body]
pub struct ExTempPath(tempfile::TempPath);

/// The path a temporary-file handle stands for.
pub uninterp spec fn kept_path_of(p: tempfile::TempPath) -> Seq<char>;

/// Relies on tempfile's `TempPath::keep`: the file is no longer removed when
/// the handle is dropped, and the path the handle held is handed back.
#[verifier::external_body]
fn keep_path(file: tempfile::TempPath) -> (r: Result<String, std::io::Error>)
    ensures
        r matches Ok(s) ==> s@ == kept_path_of(file),
{
    match file.keep() {
        Ok(path) => Ok(path.to_string_lossy().to_string()),
        Err(e) => Err(e.error),
    }
}

/// An owned temporary file. It is not `Clone`: whoever holds the value is the
/// one owner entitled to delete the file, and handing it on moves it.
#[derive(Debug)]
pub struct TempFile {
    path: String,
}

impl View for TempFile {
    type V = Seq<char>;

    /// A temporary file is identified by its path.
    closed spec fn view(&self) -> Seq<char> {
        self.path@
    }
}

impl TempFile {
    /// Takes over a freshly created temporary file, which from now on is removed
    /// only when its owner deletes it.
    pub fn new(temp_file: tempfile::TempPath) -> (r: Result<Self, std::io::Error>)
        ensures
            r matches Ok(t) ==> t@ == kept_path_of(temp_file),
    {
        match keep_path(temp_file) {
            Ok(path) => Ok(TempFile { path }),
            Err(e) => Err(e),
        }
    }

    /// Takes ownership of the file at `path`, which the caller created.
    pub fn adopt(path: String) -> (r: Self)
        ensures
            r@ == path@,
    {
        TempFile { path }
    }

    /// The file's path.
    pub fn path_str(&self) -> (r: String)
        ensures
            r@ == self@,
    {
        self.path.clone()
    }
}

/// The paths of the files an optional handle holds, counted with multiplicity.
pub open spec fn files_of(f: Option<TempFile>) -> Multiset<Seq<char>> {
    match f {
        Some(t) => Multiset::singleton(t@),
        None => Multiset::empty(),
    }
}

/// The paths of a list of handles, counted with multiplicity.
pub open spec fn files_in(s: Seq<TempFile>) -> Multiset<Seq<char>>
    decreases s.len(),
{
    if s.len() == 0 {
        Multiset::empty()
    } else {
        files_in(s.drop_last()).insert(s.last()@)
    }
}

pub proof fn lemma_files_in_push(s: Seq<TempFile>, t: TempFile)
    ensures
        files_in(s.push(t)) == files_in(s).insert(t@),
{
    assert(s.push(t).drop_last() =~= s);
}

/// All the multisets of `s`, added up.
pub open spec fn total(s: Seq<Multiset<Seq<char>>>) -> Multiset<Seq<char>>
    decreases s.len(),
{
    if s.len() == 0 {
        Multiset::empty()
    } else {
        total(s.drop_last()).add(s.last())
    }
}

/// Over a sequence of decisions each of which conserves files (what is held
/// before, with what is received, equals what is held after, with what is
/// released), an owner that starts and ends holding nothing releases exactly
/// the files it received, each as many times as it received it: none is lost
/// and none is released twice. `held[i]` is what is held before decision `i`.
pub proof fn lemma_files_released_once(
    held: Seq<Multiset<Seq<char>>>,
    received: Seq<Multiset<Seq<char>>>,
    released: Seq<Multiset<Seq<char>>>,
)
    requires
        held.len() == received.len() + 1,
        released.len() == received.len(),
        forall|i: int|
            0 <= i < received.len() ==> #[trigger] held[i].add(received[i]) == held[i + 1].add(
                released[i],
            ),
        held[0] =~= Multiset::empty(),
        held.last() =~= Multiset::empty(),
    ensures
        total(received) == total(released),
{
    lemma_files_balance(held, received, released, received.len() as int);
    assert(received.subrange(0, received.len() as int) =~= received);
    assert(released.subrange(0, released.len() as int) =~= released);
    let n = received.len() as int;
    assert(held[n] == held.last());
    assert(held[0].add(total(received)) =~= total(received));
    assert(held[n].add(total(released)) =~= total(released));
}

proof fn lemma_files_balance(
    held: Seq<Multiset<Seq<char>>>,
    received: Seq<Multiset<Seq<char>>>,
    released: Seq<Multiset<Seq<char>>>,
    k: int,
)
    requires
        held.len() == received.len() + 1,
        released.len() == received.len(),
        0 <= k <= received.len(),
        forall|i: int|
            0 <= i < received.len() ==> #[trigger] held[i].add(received[i]) == held[i + 1].add(
                released[i],
            ),
    ensures
        held[0].add(total(received.subrange(0, k))) == held[k].add(
            total(released.subrange(0, k)),
        ),
    decreases k,
{
    if k == 0 {
        assert(total(received.subrange(0, 0)) =~= Multiset::empty());
        assert(total(released.subrange(0, 0)) =~= Multiset::empty());
        assert(held[0].add(Multiset::empty()) =~= held[0]);
    } else {
        lemma_files_balance(held, received, released, k - 1);
        assert(received.subrange(0, k).drop_last() =~= received.subrange(0, k - 1));
        assert(released.subrange(0, k).drop_last() =~= released.subrange(0, k - 1));
        let ra = total(received.subrange(0, k - 1));
        let rb = total(released.subrange(0, k - 1));
        assert(held[k - 1].add(received[k - 1]) == held[k].add(released[k - 1]));
        assert(held[0].add(ra.add(received[k - 1])) =~= held[0].add(ra).add(received[k - 1]));
        assert(held[k - 1].add(rb).add(received[k - 1]) =~= held[k - 1].add(received[k - 1]).add(
            rb,
        ));
        assert(held[k].add(released[k - 1]).add(rb) =~= held[k].add(rb.add(released[k - 1])));
    }
}

} // verus!
