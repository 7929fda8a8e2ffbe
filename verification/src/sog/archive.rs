//! The member table of a SOG zip archive.
use vstd::prelude::*;
use crate::sog::error::{SogError, SogErrorView};
use vstd::string::StringExecFns;
use crate::text::str_equal;

verus! {

/// What the zip reader reports for one member of an archive: whether
/// `ZipArchive::by_index` opens it, whether it is a directory, its name when
/// `ZipFile::name` can give it as text, and its uncompressed bytes when
/// `read_to_end` reads them all.
pub struct ZipMember {
    pub opens: bool,
    pub is_dir: bool,
    pub name: Option<Seq<char>>,
    pub data: Option<Seq<u8>>,
}

/// An open zip archive over an in-memory copy of its bytes.
#[verifier::external_body]
pub struct ZipReader {
    archive: zip::ZipArchive<std::io::Cursor<Vec<u8>>>,
}

#[verifier::external_type_specification]
#[verifier::external_body]
pub struct ExZipError(zip::result::ZipError);

/// What `ZipArchive::new` finds in these bytes: `None` when it rejects them,
/// else the members of the archive in central-directory order. This names
/// what the opened archive holds, as `zip_members` does for an open reader;
/// the member wrappers below each read one part of it.
pub uninterp spec fn zip_listing(bytes: Seq<u8>) -> Option<Seq<ZipMember>>;

/// The members an open archive holds, in central-directory order.
pub uninterp spec fn zip_members(reader: ZipReader) -> Seq<ZipMember>;

/// Opens a zip archive over a copy of `bytes` with `ZipArchive::new`. The
/// contract names the outcome: the zip crate computes it from the bytes
/// alone, by reading the central directory.
#[verifier::external_body]
fn zip_open(bytes: &[u8]) -> (r: Result<ZipReader, zip::result::ZipError>)
    ensures
        match r {
            Ok(z) => zip_listing(bytes@) == Some(zip_members(z)),
            Err(_) => zip_listing(bytes@) is None,
        },
{
    match zip::ZipArchive::new(std::io::Cursor::new(bytes.to_vec())) {
        Ok(archive) => Ok(ZipReader { archive }),
        Err(e) => Err(e),
    }
}

/// `ZipArchive::len`: the number of members in the central directory.
#[verifier::external_body]
fn zip_len(z: &ZipReader) -> (n: usize)
    ensures
        n == zip_members(*z).len(),
{
    z.archive.len()
}

/// `ZipArchive::by_index` followed by `ZipFile::is_dir`. Opening a member
/// seeks in the in-memory copy and leaves the member table as it was.
#[verifier::external_body]
fn zip_member_is_dir(z: &mut ZipReader, index: usize) -> (r: Result<bool, zip::result::ZipError>)
    ensures
        zip_members(*final(z)) == zip_members(*old(z)),
        match r {
            Ok(d) => index < zip_members(*old(z)).len() && zip_members(*old(z))[index as int].opens
                && d == zip_members(*old(z))[index as int].is_dir,
            Err(_) => index >= zip_members(*old(z)).len() || !zip_members(*old(z))[index as int].opens,
        },
{
    match z.archive.by_index(index) {
        Ok(file) => Ok(file.is_dir()),
        Err(e) => Err(e),
    }
}

/// `ZipArchive::by_index` followed by `ZipFile::name`: the member's name.
/// Opening a member leaves the member table as it was.
#[verifier::external_body]
fn zip_member_name(z: &mut ZipReader, index: usize) -> (r: Result<String, zip::result::ZipError>)
    ensures
        zip_members(*final(z)) == zip_members(*old(z)),
        match r {
            Ok(name) => index < zip_members(*old(z)).len() && zip_members(*old(z))[index as int].opens
                && zip_members(*old(z))[index as int].name == Some(name@),
            Err(_) => index >= zip_members(*old(z)).len() || !zip_members(*old(z))[index as int].opens
                || zip_members(*old(z))[index as int].name is None,
        },
{
    let file = z.archive.by_index(index)?;
    let name = file.name()?;
    Ok(name.to_string())
}

/// `ZipArchive::by_index` followed by `read_to_end`: the member's
/// uncompressed bytes. Reading leaves the member table as it was.
#[verifier::external_body]
fn zip_member_data(z: &mut ZipReader, index: usize) -> (r: Result<Vec<u8>, zip::result::ZipError>)
    ensures
        zip_members(*final(z)) == zip_members(*old(z)),
        match r {
            Ok(data) => index < zip_members(*old(z)).len() && zip_members(*old(z))[index as int].opens
                && zip_members(*old(z))[index as int].data == Some(data@),
            Err(_) => index >= zip_members(*old(z)).len() || !zip_members(*old(z))[index as int].opens
                || zip_members(*old(z))[index as int].data is None,
        },
{
    let mut file = z.archive.by_index(index)?;
    let mut data = Vec::new();
    std::io::Read::read_to_end(&mut file, &mut data)?;
    Ok(data)
}

/// The file table a list of archive members yields, read in order:
/// directories are skipped, a later file replaces an earlier one of the same
/// name, and the first member that cannot be opened or read is an error:
/// one that does not open (or has no name as text) by its position, one whose
/// bytes cannot be read by its name.
pub open spec fn spec_archive_table(members: Seq<ZipMember>) -> Result<Map<Seq<char>, Seq<u8>>, SogErrorView>
    decreases members.len(),
{
    if members.len() == 0 {
        Ok(Map::empty())
    } else {
        match spec_archive_table(members.drop_last()) {
            Err(e) => Err(e),
            Ok(table) => {
                let m = members.last();
                let index = (members.len() - 1) as usize;
                if !m.opens {
                    Err(SogErrorView::ZipEntry { index })
                } else if m.is_dir {
                    Ok(table)
                } else {
                    match m.name {
                        None => Err(SogErrorView::ZipEntry { index }),
                        Some(name) => match m.data {
                            Some(data) => Ok(table.insert(name, data)),
                            None => Err(SogErrorView::ZipRead { name }),
                        },
                    }
                }
            },
        }
    }
}

proof fn lemma_table_error_persists(members: Seq<ZipMember>, j: int, k: int)
    requires
        0 <= j <= k <= members.len(),
        spec_archive_table(members.take(j)) is Err,
    ensures
        spec_archive_table(members.take(k)) == spec_archive_table(members.take(j)),
    decreases k - j,
{
    if k > j {
        lemma_table_error_persists(members, j, k - 1);
        assert(members.take(k).drop_last() =~= members.take(k - 1));
    }
}

/// A member that holds a file: it opens, is not a directory, and reads.
pub open spec fn is_file_member(m: ZipMember) -> bool {
    m.opens && !m.is_dir && m.name is Some && m.data is Some
}

/// Reading an archive reads back what its members hold: when the table is
/// built, a file member whose name no later file member reuses is in the
/// table with its data, every name in the table comes from some file
/// member, and every member opened and every non-directory member read.
pub proof fn lemma_archive_last_file_wins(members: Seq<ZipMember>, k: int)
    requires
        spec_archive_table(members) is Ok,
        0 <= k < members.len(),
        is_file_member(members[k]),
        forall|j: int| k < j < members.len() && is_file_member(#[trigger] members[j])
            ==> members[j].name.unwrap() != members[k].name.unwrap(),
    ensures
        spec_archive_table(members)->Ok_0.contains_key(members[k].name.unwrap()),
        spec_archive_table(members)->Ok_0[members[k].name.unwrap()] == members[k].data.unwrap(),
    decreases members.len(),
{
    let last = members.len() - 1;
    let prefix = members.drop_last();
    if k < last {
        assert forall|j: int| k < j < prefix.len() && is_file_member(#[trigger] prefix[j])
            implies prefix[j].name.unwrap() != prefix[k].name.unwrap() by {
            assert(prefix[j] == members[j]);
        }
        assert(prefix[k] == members[k]);
        lemma_archive_last_file_wins(prefix, k);
        if is_file_member(members[last]) {
            assert(members[last].name.unwrap() != members[k].name.unwrap());
        }
    }
}

/// Every member of an archive whose table could be built opened, and every
/// non-directory member read; every name in the table is that of a file member.
pub proof fn lemma_archive_table_complete(members: Seq<ZipMember>)
    requires
        spec_archive_table(members) is Ok,
    ensures
        forall|j: int| 0 <= j < members.len() ==> (#[trigger] members[j]).opens
            && (!members[j].is_dir ==> members[j].name is Some && members[j].data is Some),
        forall|n: Seq<char>| #[trigger] spec_archive_table(members)->Ok_0.contains_key(n) ==>
            exists|j: int| 0 <= j < members.len() && is_file_member(#[trigger] members[j])
                && members[j].name.unwrap() == n,
    decreases members.len(),
{
    if members.len() > 0 {
        let prefix = members.drop_last();
        let last = members.len() - 1;
        lemma_archive_table_complete(prefix);
        assert forall|j: int| 0 <= j < members.len() implies (#[trigger] members[j]).opens
            && (!members[j].is_dir ==> members[j].name is Some && members[j].data is Some) by {
            if j < last {
                assert(members[j] == prefix[j]);
            }
        }
        assert forall|n: Seq<char>| #[trigger] spec_archive_table(members)->Ok_0.contains_key(n) implies
            exists|j: int| 0 <= j < members.len() && is_file_member(#[trigger] members[j])
                && members[j].name.unwrap() == n by {
            if spec_archive_table(prefix)->Ok_0.contains_key(n) {
                let j = choose|j: int| 0 <= j < prefix.len() && is_file_member(#[trigger] prefix[j])
                    && prefix[j].name.unwrap() == n;
                assert(members[j] == prefix[j]);
            } else {
                assert(is_file_member(members[last]));
            }
        }
    }
}

/// What reading a SOG bundle's bytes as an archive gives: an error when the
/// zip reader rejects them, else the file table of its members.
pub open spec fn spec_archive_of_bytes(bytes: Seq<u8>) -> Result<Map<Seq<char>, Seq<u8>>, SogErrorView> {
    match zip_listing(bytes) {
        None => Err(SogErrorView::ZipOpen),
        Some(members) => spec_archive_table(members),
    }
}

/// One named file of an archive.
pub struct SogFile {
    pub name: String,
    pub data: Vec<u8>,
}

/// The files of a SOG archive by name; no name occurs twice.
pub struct SogArchive {
    files: Vec<SogFile>,
}

/// Whether no two files share a name.
pub open spec fn names_distinct(files: Seq<SogFile>) -> bool {
    forall|i: int, j: int| 0 <= i < j < files.len() ==> files[i].name@ != files[j].name@
}

/// The table a list of files with distinct names describes.
pub open spec fn files_table(files: Seq<SogFile>) -> Map<Seq<char>, Seq<u8>> {
    Map::new(
        |n: Seq<char>| exists|i: int| 0 <= i < files.len() && files[i].name@ == n,
        |n: Seq<char>| files[choose|i: int| 0 <= i < files.len() && files[i].name@ == n].data@,
    )
}

proof fn lemma_table_lookup(files: Seq<SogFile>, i: int)
    requires
        names_distinct(files),
        0 <= i < files.len(),
    ensures
        files_table(files).contains_key(files[i].name@),
        files_table(files)[files[i].name@] == files[i].data@,
{
    let n = files[i].name@;
    assert(files_table(files).dom().contains(n));
    let k = choose|k: int| 0 <= k < files.len() && files[k].name@ == n;
    if k != i {
        if k < i {
            assert(files[k].name@ != files[i].name@);
        } else {
            assert(files[i].name@ != files[k].name@);
        }
    }
}

proof fn lemma_table_push(files: Seq<SogFile>, f: SogFile)
    requires
        names_distinct(files),
        forall|i: int| 0 <= i < files.len() ==> files[i].name@ != f.name@,
    ensures
        names_distinct(files.push(f)),
        files_table(files.push(f)) == files_table(files).insert(f.name@, f.data@),
{
    let s = files.push(f);
    assert(names_distinct(s));
    let lhs = files_table(s);
    let rhs = files_table(files).insert(f.name@, f.data@);
    assert forall|n: Seq<char>| #[trigger] lhs.contains_key(n) <==> rhs.contains_key(n) by {
        if lhs.contains_key(n) {
            let k = choose|k: int| 0 <= k < s.len() && s[k].name@ == n;
            if k < files.len() {
                assert(files[k].name@ == n);
            }
        }
        if rhs.contains_key(n) && n != f.name@ {
            let k = choose|k: int| 0 <= k < files.len() && files[k].name@ == n;
            assert(s[k].name@ == n);
        }
        if n == f.name@ {
            assert(s[files.len() as int].name@ == n);
        }
    }
    assert forall|n: Seq<char>| lhs.contains_key(n) implies #[trigger] lhs[n] == rhs[n] by {
        let k = choose|k: int| 0 <= k < s.len() && s[k].name@ == n;
        lemma_table_lookup(s, k);
        if k < files.len() {
            assert(files[k] == s[k]);
            lemma_table_lookup(files, k);
        }
    }
    assert(lhs =~= rhs);
}

proof fn lemma_table_replace(files: Seq<SogFile>, j: int, f: SogFile)
    requires
        names_distinct(files),
        0 <= j < files.len(),
        files[j].name@ == f.name@,
    ensures
        names_distinct(files.update(j, f)),
        files_table(files.update(j, f)) == files_table(files).insert(f.name@, f.data@),
{
    let s = files.update(j, f);
    assert(names_distinct(s)) by {
        assert forall|a: int, b: int| 0 <= a < b < s.len() implies s[a].name@ != s[b].name@ by {
            assert(s[a].name@ == files[a].name@);
            assert(s[b].name@ == files[b].name@);
        }
    }
    let lhs = files_table(s);
    let rhs = files_table(files).insert(f.name@, f.data@);
    assert forall|n: Seq<char>| #[trigger] lhs.contains_key(n) <==> rhs.contains_key(n) by {
        if lhs.contains_key(n) {
            let k = choose|k: int| 0 <= k < s.len() && s[k].name@ == n;
            assert(files[k].name@ == n);
        }
        if rhs.contains_key(n) {
            if n == f.name@ {
                assert(s[j].name@ == n);
            } else {
                let k = choose|k: int| 0 <= k < files.len() && files[k].name@ == n;
                assert(s[k].name@ == n);
            }
        }
    }
    assert forall|n: Seq<char>| lhs.contains_key(n) implies #[trigger] lhs[n] == rhs[n] by {
        let k = choose|k: int| 0 <= k < s.len() && s[k].name@ == n;
        lemma_table_lookup(s, k);
        if k != j {
            assert(files[k] == s[k]);
            lemma_table_lookup(files, k);
        }
    }
    assert(lhs =~= rhs);
}

impl View for SogArchive {
    type V = Map<Seq<char>, Seq<u8>>;

    closed spec fn view(&self) -> Map<Seq<char>, Seq<u8>> {
        files_table(self.files@)
    }
}

impl SogArchive {
    #[verifier::type_invariant]
    spec fn names_unique(&self) -> bool {
        names_distinct(self.files@)
    }

    /// Position of the file named like `name`, if any.
    fn position_of(&self, name: &String) -> (r: Option<usize>)
        ensures
            match r {
                Some(i) => i < self.files@.len() && self.files@[i as int].name@ == name@,
                None => forall|i: int| 0 <= i < self.files@.len() ==> self.files@[i].name@ != name@,
            },
    {
        let mut i: usize = 0;
        while i < self.files.len()
            invariant
                i <= self.files@.len(),
                forall|k: int| 0 <= k < i ==> self.files@[k].name@ != name@,
            decreases self.files@.len() - i,
        {
            if str_equal(self.files[i].name.as_str(), name.as_str()) {
                return Some(i);
            }
            i = i + 1;
        }
        None
    }

    /// Adds a file, replacing the data of a file of the same name.
    fn insert(&mut self, name: String, data: Vec<u8>)
        ensures
            final(self)@ == old(self)@.insert(name@, data@),
    {
        proof {
            use_type_invariant(&*self);
        }
        let ghost before = self.files@;
        match self.position_of(&name) {
            Some(j) => {
                proof {
                    lemma_table_replace(before, j as int, SogFile { name, data });
                }
                let mut files: Vec<SogFile> = Vec::new();
                std::mem::swap(&mut files, &mut self.files);
                files.set(j, SogFile { name, data });
                self.files = files;
            },
            None => {
                proof {
                    lemma_table_push(before, SogFile { name, data });
                }
                let mut files: Vec<SogFile> = Vec::new();
                std::mem::swap(&mut files, &mut self.files);
                files.push(SogFile { name, data });
                self.files = files;
            },
        }
    }

    /// Reads every member of a zip archive into a file table; directories
    /// are skipped and a later file of the same name replaces an earlier one.
    pub fn from_zip_bytes(bytes: &[u8]) -> (r: Result<SogArchive, SogError>)
        ensures
            match r {
                Ok(a) => spec_archive_of_bytes(bytes@) == Ok::<Map<Seq<char>, Seq<u8>>, SogErrorView>(a@),
                Err(e) => spec_archive_of_bytes(bytes@) == Err::<Map<Seq<char>, Seq<u8>>, SogErrorView>(e@),
            },
    {
        let mut zip = match zip_open(bytes) {
            Ok(z) => z,
            Err(_) => return Err(SogError::ZipOpen),
        };
        let ghost members = zip_members(zip);
        let n = zip_len(&zip);
        let mut archive = SogArchive { files: Vec::new() };
        proof {
            assert(archive@ =~= Map::<Seq<char>, Seq<u8>>::empty());
        }
        let mut i: usize = 0;
        while i < n
            invariant
                n == members.len(),
                i <= n,
                zip_members(zip) == members,
                zip_listing(bytes@) == Some(members),
                spec_archive_table(members.take(i as int)) == Ok::<Map<Seq<char>, Seq<u8>>, SogErrorView>(archive@),
            decreases n - i,
        {
            proof {
                assert(members.take(i + 1).drop_last() =~= members.take(i as int));
            }
            let is_dir = match zip_member_is_dir(&mut zip, i) {
                Ok(d) => d,
                Err(_) => {
                    proof {
                        assert(members.take(i + 1).last() == members[i as int]);
                        lemma_table_error_persists(members, i + 1, n as int);
                        assert(members.take(n as int) =~= members);
                    }
                    return Err(SogError::ZipEntry { index: i });
                },
            };
            if !is_dir {
                let name = match zip_member_name(&mut zip, i) {
                    Ok(name) => name,
                    Err(_) => {
                        proof {
                            assert(members.take(i + 1).last() == members[i as int]);
                            lemma_table_error_persists(members, i + 1, n as int);
                            assert(members.take(n as int) =~= members);
                        }
                        return Err(SogError::ZipEntry { index: i });
                    },
                };
                let data = match zip_member_data(&mut zip, i) {
                    Ok(data) => data,
                    Err(_) => {
                        proof {
                            assert(members.take(i + 1).last() == members[i as int]);
                            lemma_table_error_persists(members, i + 1, n as int);
                            assert(members.take(n as int) =~= members);
                        }
                        return Err(SogError::ZipRead { name });
                    },
                };
                archive.insert(name, data);
            }
            i = i + 1;
        }
        proof {
            assert(members.take(n as int) =~= members);
        }
        Ok(archive)
    }

    /// The bytes of the file called `file_name`.
    pub fn get(&self, file_name: &str) -> (r: Result<&[u8], SogError>)
        ensures
            match r {
                Ok(d) => self@.contains_key(file_name@) && d@ == self@[file_name@],
                Err(e) => !self@.contains_key(file_name@)
                    && e@ == SogErrorView::MissingEntry { name: file_name@ },
            },
    {
        proof {
            use_type_invariant(self);
        }
        let key = String::from_str(file_name);
        match self.position_of(&key) {
            Some(i) => {
                proof {
                    lemma_table_lookup(self.files@, i as int);
                }
                Ok(self.files[i].data.as_slice())
            },
            None => Err(SogError::MissingEntry { name: key }),
        }
    }
}

} // verus!
