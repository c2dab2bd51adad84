use vstd::prelude::*;
use hadris::iso::read::PathSeparator;
use hadris::iso::write::InputFiles;
use hadris_iso::joliet::JolietLevel;
use hadris_iso::write::options::{CreationFeatures, FormatOptions};
use hadris_iso::write::{File as IsoFile, IsoCreationError, IsoImageWriter};
use std::sync::Arc;

verus! {

#[verifier::external_type_specification]
#[verifier::external_body]
pub struct ExInputFiles(hadris_iso::write::InputFiles);

#[verifier::external_type_specification]
#[verifier::external_body]
pub struct ExIsoCreationError(hadris_iso::write::IsoCreationError);

/// The character that separates the components of paths inside the image.
#[derive(Clone, Copy, Debug, PartialEq, Eq)]
pub enum Separator {
    ForwardSlash,
    Backslash,
}

/// The Joliet level of the image's Unicode file names.
#[derive(Clone, Copy, Debug, PartialEq, Eq)]
pub enum Joliet {
    Level1,
    Level2,
    Level3,
}

/// A file placed at the root of an image.
#[derive(Debug)]
pub struct IsoEntry {
    pub name: String,
    pub contents: Vec<u8>,
}

/// How an image is laid out and labelled.
#[derive(Debug)]
pub struct IsoOptions {
    pub volume_name: String,
    pub system_id: Option<String>,
    pub volume_set_id: Option<String>,
    pub publisher_id: Option<String>,
    pub preparer_id: Option<String>,
    pub application_id: Option<String>,
    pub joliet: Option<Joliet>,
    pub sector_size: usize,
    pub path_separator: Separator,
    pub strict_charset: bool,
}

/// Why the seed image could not be made.
#[derive(Debug, PartialEq, Eq)]
pub enum CloudInitError {
    /// The image writer failed, with its message.
    IsoCreation(String),
}

/// Whether every character of `s` is ASCII.
pub open spec fn is_ascii_text(s: Seq<char>) -> bool {
    forall|i: int| 0 <= i < s.len() ==> (#[trigger] s[i] as u32) < 128
}

/// An optional identifier that fits a descriptor field of `n` bytes.
pub open spec fn id_fits(id: Option<String>, n: nat) -> bool {
    match id {
        Some(s) => is_ascii_text(s@) && s@.len() <= n,
        None => true,
    }
}

/// Options the image writer takes without failing: 2048-byte sectors and
/// ASCII identifiers within their descriptor fields.
pub open spec fn writer_accepts(o: IsoOptions) -> bool {
    &&& o.sector_size == 2048
    &&& is_ascii_text(o.volume_name@)
    &&& o.volume_name@.len() <= 32
    &&& id_fits(o.system_id, 32)
    &&& id_fits(o.volume_set_id, 128)
    &&& id_fits(o.publisher_id, 128)
    &&& id_fits(o.preparer_id, 128)
    &&& id_fits(o.application_id, 128)
}

/// A file name the image writer converts for every naming level: one to
/// 64 letters, digits, `-`, `_` or `.`.
pub open spec fn is_plain_file_name(name: Seq<char>) -> bool {
    &&& 0 < name.len() <= 64
    &&& forall|i: int|
        0 <= i < name.len() ==> {
            let c = #[trigger] name[i];
            ('a' <= c <= 'z') || ('A' <= c <= 'Z') || ('0' <= c <= '9') || c == '-' || c == '_'
                || c == '.'
        }
}

/// The bytes of an ASCII text, space-padded to `n` bytes.
pub open spec fn padded(s: Seq<char>, n: nat) -> Seq<u8> {
    Seq::new(n, |i: int| if i < s.len() { s[i] as u8 } else { 32u8 })
}

/// The UTF-16 big-endian encoding of an ASCII text.
pub open spec fn utf16_be(s: Seq<char>) -> Seq<u8> {
    Seq::new(2 * s.len(), |i: int| if i % 2 == 0 { 0u8 } else { s[i / 2] as u8 })
}

/// The little-endian 32-bit number at byte `at` of `s`.
pub open spec fn le32(s: Seq<u8>, at: int) -> int {
    s[at] + 256 * s[at + 1] + 65536 * s[at + 2] + 16777216 * s[at + 3]
}

/// The standard identifier of ISO 9660 volume descriptors, `CD001`.
pub open spec fn cd001() -> Seq<u8> {
    seq![67u8, 68u8, 48u8, 48u8, 49u8]
}

/// Whether `needle` stands somewhere in `hay` as a contiguous run.
pub open spec fn holds_run(hay: Seq<u8>, needle: Seq<u8>) -> bool {
    exists|k: int|
        0 <= k && k + needle.len() <= hay.len() && #[trigger] hay.subrange(k, k + needle.len())
            == needle
}

/// Sector 16 of the image holds an ISO 9660 primary volume descriptor for
/// 2048-byte logical blocks; without charset rewriting, its volume
/// identifier is `volume_name`, space-padded.
pub open spec fn has_primary_descriptor(image: Seq<u8>, volume_name: Seq<char>, strict: bool) -> bool {
    &&& image.len() >= 34816
    &&& image[32768] == 1
    &&& image.subrange(32769, 32774) == cd001()
    &&& image.subrange(32896, 32900) == seq![0u8, 8u8, 8u8, 0u8]
    &&& !strict ==> image.subrange(32808, 32840) == padded(volume_name, 32)
}

/// Sector 17 of the image holds a Joliet level 3 supplementary volume
/// descriptor (escape sequence `%/E`).
pub open spec fn has_joliet3_descriptor(image: Seq<u8>) -> bool {
    &&& image.len() >= 36864
    &&& image[34816] == 2
    &&& image.subrange(34817, 34822) == cd001()
    &&& image.subrange(34904, 34907) == seq![37u8, 47u8, 69u8]
}

/// The directory record at byte `rec` carries the Joliet name `name`.
pub open spec fn record_names(image: Seq<u8>, rec: int, name: Seq<char>) -> bool {
    &&& image[rec + 32] == 2 * name.len()
    &&& image.subrange(rec + 33, rec + 33 + 2 * name.len()) == utf16_be(name)
}

/// The directory record at byte `rec` describes a file of exactly
/// `contents`: its length field, and its extent's bytes.
pub open spec fn record_holds(image: Seq<u8>, rec: int, contents: Seq<u8>) -> bool {
    &&& le32(image, rec + 10) == contents.len()
    &&& contents.len() > 0 ==> {
        let at = le32(image, rec + 2) * 2048;
        &&& at + contents.len() <= image.len()
        &&& image.subrange(at, at + contents.len()) == contents
    }
}

/// The root directory of the Joliet tree (the one named by the record at
/// byte 156 of sector 17) lists a file called `name` whose data is
/// `contents`.
pub open spec fn joliet_root_lists(image: Seq<u8>, name: Seq<char>, contents: Seq<u8>) -> bool {
    let dir = le32(image, 34974) * 2048;
    let dir_len = le32(image, 34982);
    exists|rec: int|
        #![trigger record_names(image, rec, name)]
        dir <= rec && rec + 33 + 2 * name.len() <= dir + dir_len && rec + 33 + 2 * name.len()
            <= image.len() && record_names(image, rec, name) && record_holds(image, rec, contents)
}

/// The start of the sector after the one that holds byte `pos`.
pub open spec fn next_sector(pos: int) -> int {
    pos - pos % 2048 + 2048
}

/// The record at byte `rec` is the `.` or `..` entry of its directory.
pub open spec fn record_is_dot(image: Seq<u8>, rec: int) -> bool {
    image[rec + 32] == 1 && (image[rec + 33] == 0 || image[rec + 33] == 1)
}

/// The record at byte `rec` carries one of the Joliet names `names`.
pub open spec fn record_named_in(image: Seq<u8>, rec: int, names: Seq<Seq<char>>) -> bool {
    exists|i: int| 0 <= i < names.len() && #[trigger] record_names(image, rec, names[i])
}

/// Walking the directory records from byte `pos` to byte `end` (a zero
/// length byte ends a sector's records), every record is `.`, `..` or
/// carries one of `names`.
pub open spec fn records_only(image: Seq<u8>, pos: int, end: int, names: Seq<Seq<char>>) -> bool
    decreases (if pos < end {
        end - pos
    } else {
        0
    }),
{
    if pos < 0 || pos >= end || pos >= image.len() {
        true
    } else if image[pos] == 0 {
        proof {
            assert(pos % 2048 < 2048) by (nonlinear_arith)
                requires
                    pos >= 0,
            ;
        }
        records_only(image, next_sector(pos), end, names)
    } else {
        (record_is_dot(image, pos) || record_named_in(image, pos, names)) && records_only(
            image,
            pos + image[pos],
            end,
            names,
        )
    }
}

/// The root directory of the Joliet tree lists no entry but `.`, `..` and
/// files named by `names`.
pub open spec fn joliet_root_only(image: Seq<u8>, names: Seq<Seq<char>>) -> bool {
    let dir = le32(image, 34974) * 2048;
    let dir_len = le32(image, 34982);
    records_only(image, dir, dir + dir_len, names)
}

/// The number of 2048-byte sectors that `len` bytes fill.
pub open spec fn sectors_of(len: nat) -> nat {
    (len + 2047) / 2048
}

/// The sectors that the contents of `files` fill, each file on its own.
pub open spec fn content_sectors(files: Seq<(Seq<char>, Seq<u8>)>) -> nat
    decreases files.len(),
{
    if files.len() == 0 {
        0
    } else {
        sectors_of(files.last().1.len()) + content_sectors(files.drop_last())
    }
}

/// A buffer of `buffer_len` bytes leaves the writer room for the whole
/// layout of `files`: 64 sectors for the system area, the volume
/// descriptors and the path tables, two per file for the directories of
/// both naming levels, and the sectors of the contents.
pub open spec fn layout_fits(files: Seq<(Seq<char>, Seq<u8>)>, buffer_len: nat) -> bool {
    2048 * (64 + 2 * files.len() + content_sectors(files)) <= buffer_len
}

/// The files that a `hadris_iso::write::InputFiles` holds at its root, in
/// order: each file's name and contents.
pub uninterp spec fn input_files_contents(files: InputFiles) -> Seq<(Seq<char>, Seq<u8>)>;

/// Builds the `hadris_iso::write::InputFiles` with the given separator
/// whose root holds one `hadris_iso::write::File::File` per entry, in order,
/// with its name and contents, and states that of it.
#[verifier::external_body]
fn iso_input_files(entries: Vec<IsoEntry>, separator: Separator) -> (files: InputFiles)
    ensures
        input_files_contents(files) == entries@.map_values(|e: IsoEntry| (e.name@, e.contents@)),
{
    let path_separator = match separator {
        Separator::ForwardSlash => PathSeparator::ForwardSlash,
        Separator::Backslash => PathSeparator::Backslash,
    };
    let files = entries.into_iter().map(|e| IsoFile::File { name: Arc::new(e.name), contents: e.contents });
    InputFiles { path_separator, files: files.collect() }
}

/// Calls `hadris_iso::write::IsoImageWriter::format_new` with `files` and
/// the `FormatOptions` made field for field from `o` (default
/// `CreationFeatures` but for the Joliet level), on a `std::io::Cursor` over
/// `buffer_len` zero bytes, and returns the cursor's bytes afterwards.
///
/// What the writer's source shows, for options it accepts and flat files
/// with distinct plain names, of an image it returns: the primary volume
/// descriptor stands at sector 16 and, for Joliet level 3, the Joliet
/// descriptor at sector 17; each file's contents are copied verbatim into
/// an extent of their own that nothing writes over; and the Joliet root
/// directory records each file under its UTF-16 name (names that are all
/// different get no suffix) with that extent and length (lengths are 32-bit
/// fields). A cursor over a vector only overwrites and extends it.
///
/// The Joliet root directory holds no other records than `.`, `..` and
/// those of the files.
///
/// The writer fails on a cursor over a vector only by reading back a
/// directory past the end of the cursor (its other errors are sink errors,
/// over-long identifiers and broken internal bookkeeping); with a buffer
/// that leaves room for the whole layout, every read back stays inside it,
/// so it succeeds. How much smaller a buffer still succeeds is not stated,
/// nor are the other bytes, which carry the clock's time, the exact length
/// of the image, or the directory records of the other naming levels.
#[verifier::external_body]
fn write_iso(files: InputFiles, o: IsoOptions, buffer_len: usize) -> (r: Result<Vec<u8>, IsoCreationError>)
    requires
        writer_accepts(o),
        forall|i: int|
            0 <= i < input_files_contents(files).len() ==> is_plain_file_name(
                #[trigger] input_files_contents(files)[i].0,
            ),
        forall|i: int, j: int|
            0 <= i < j < input_files_contents(files).len() ==> #[trigger] input_files_contents(
                files,
            )[i].0 != #[trigger] input_files_contents(files)[j].0,
    ensures
        layout_fits(input_files_contents(files), buffer_len as nat) ==> r is Ok,
        r matches Ok(image) ==> o.joliet == Some(Joliet::Level3) ==> joliet_root_only(
            image@,
            input_files_contents(files).map_values(|f: (Seq<char>, Seq<u8>)| f.0),
        ),
        r matches Ok(image) ==> image@.len() >= buffer_len,
        r matches Ok(image) ==> has_primary_descriptor(image@, o.volume_name@, o.strict_charset),
        r matches Ok(image) ==> o.joliet == Some(Joliet::Level3) ==> has_joliet3_descriptor(image@),
        r matches Ok(image) ==> forall|i: int|
            0 <= i < input_files_contents(files).len() ==> holds_run(
                image@,
                #[trigger] input_files_contents(files)[i].1,
            ),
        r matches Ok(image) ==> o.joliet == Some(Joliet::Level3) ==> forall|i: int|
            0 <= i < input_files_contents(files).len() && input_files_contents(files)[i].1.len()
                < 0x1_0000_0000 ==> joliet_root_lists(
                image@,
                #[trigger] input_files_contents(files)[i].0,
                input_files_contents(files)[i].1,
            ),
{
    let path_separator = match o.path_separator {
        Separator::ForwardSlash => PathSeparator::ForwardSlash,
        Separator::Backslash => PathSeparator::Backslash,
    };
    let joliet = o.joliet.map(|j| match j {
        Joliet::Level1 => JolietLevel::Level1,
        Joliet::Level2 => JolietLevel::Level2,
        Joliet::Level3 => JolietLevel::Level3,
    });
    let features = CreationFeatures { joliet, ..Default::default() };
    let ops = FormatOptions { volume_name: o.volume_name, system_id: o.system_id, volume_set_id: o.volume_set_id, publisher_id: o.publisher_id, preparer_id: o.preparer_id, application_id: o.application_id, sector_size: o.sector_size, features, path_separator, strict_charset: o.strict_charset };
    let mut buffer = std::io::Cursor::new(vec![0u8; buffer_len]);
    IsoImageWriter::format_new(&mut buffer, files, ops)?;
    Ok(buffer.into_inner())
}

/// The message of an image-writer error, as its `Display` gives it. Nothing
/// is stated of the text.
#[verifier::external_body]
fn iso_error_message(e: &IsoCreationError) -> String {
    e.to_string()
}

/// The directory the seed image is written to.
pub open spec fn spec_seed_dir() -> Seq<char> {
    "/tmp/cvm"@
}

/// The path of the seed image.
pub open spec fn spec_seed_path() -> Seq<char> {
    "/tmp/cvm/cloud-init.iso"@
}

/// The directory the seed image is written to.
pub fn seed_dir() -> (s: String)
    ensures
        s@ == spec_seed_dir(),
{
    "/tmp/cvm".to_string()
}

/// The path of the seed image.
pub fn seed_path() -> (s: String)
    ensures
        s@ == spec_seed_path(),
{
    "/tmp/cvm/cloud-init.iso".to_string()
}

/// How many zero bytes the image is written over.
pub const SEED_BUFFER_LEN: usize = 1048576;

/// The layout of a cloud-init seed: volume `cidata`, no other labels,
/// Joliet level 3 names, 2048-byte sectors, `/` between path components, no
/// charset rewriting.
pub open spec fn is_seed_options(o: IsoOptions) -> bool {
    &&& o.volume_name@ == "cidata"@
    &&& o.system_id is None
    &&& o.volume_set_id is None
    &&& o.publisher_id is None
    &&& o.preparer_id is None
    &&& o.application_id is None
    &&& o.joliet == Some(Joliet::Level3)
    &&& o.sector_size == 2048
    &&& o.path_separator == Separator::ForwardSlash
    &&& !o.strict_charset
}

/// The layout of a cloud-init seed image.
pub fn seed_options() -> (o: IsoOptions)
    ensures
        is_seed_options(o),
{
    IsoOptions {
        volume_name: "cidata".to_string(),
        system_id: None,
        volume_set_id: None,
        publisher_id: None,
        preparer_id: None,
        application_id: None,
        joliet: Some(Joliet::Level3),
        sector_size: 2048,
        path_separator: Separator::ForwardSlash,
        strict_charset: false,
    }
}

/// The files of a seed: `user-data` then `meta-data`.
pub open spec fn is_seed_entries(e: Seq<IsoEntry>, user_data: Seq<u8>, meta_data: Seq<u8>) -> bool {
    &&& e.len() == 2
    &&& e[0].name@ == "user-data"@
    &&& e[0].contents@ == user_data
    &&& e[1].name@ == "meta-data"@
    &&& e[1].contents@ == meta_data
}

/// The files of the seed made from the given user data and meta data.
pub fn seed_entries(user_data: Vec<u8>, meta_data: Vec<u8>) -> (e: Vec<IsoEntry>)
    ensures
        is_seed_entries(e@, user_data@, meta_data@),
{
    let mut e: Vec<IsoEntry> = Vec::new();
    e.push(IsoEntry { name: "user-data".to_string(), contents: user_data });
    e.push(IsoEntry { name: "meta-data".to_string(), contents: meta_data });
    e
}

/// What making the seed gives for what the image writer returned: its image
/// as it is, or `CloudInitError::IsoCreation` with the writer's message.
pub fn seed_image_outcome(written: Result<Vec<u8>, IsoCreationError>) -> (r: Result<Vec<u8>, CloudInitError>)
    ensures
        written is Ok <==> r is Ok,
        written matches Ok(image) ==> r == Ok::<Vec<u8>, CloudInitError>(image),
        written is Err ==> r matches Err(CloudInitError::IsoCreation(_)),
{
    match written {
        Ok(image) => Ok(image),
        Err(e) => Err(CloudInitError::IsoCreation(iso_error_message(&e))),
    }
}

/// A cloud-init seed image for the given user data and meta data: at least
/// `SEED_BUFFER_LEN` bytes, an ISO 9660 volume labelled `cidata` with
/// 2048-byte blocks and Joliet level 3 names, whose Joliet root lists
/// `user-data` holding the user data and `meta-data` holding the meta data
/// (each within the format's 32-bit file length), and which holds both
/// contents verbatim.
pub open spec fn is_seed_image(image: Seq<u8>, user_data: Seq<u8>, meta_data: Seq<u8>) -> bool {
    &&& image.len() >= SEED_BUFFER_LEN
    &&& has_primary_descriptor(image, "cidata"@, false)
    &&& has_joliet3_descriptor(image)
    &&& holds_run(image, user_data)
    &&& holds_run(image, meta_data)
    &&& user_data.len() < 0x1_0000_0000 ==> joliet_root_lists(image, "user-data"@, user_data)
    &&& meta_data.len() < 0x1_0000_0000 ==> joliet_root_lists(image, "meta-data"@, meta_data)
}

/// Seed files of these lengths leave the image writer room for the whole
/// layout within `SEED_BUFFER_LEN` bytes: then making the seed succeeds.
pub open spec fn seed_fits(user_len: nat, meta_len: nat) -> bool {
    2048 * (68 + sectors_of(user_len) + sectors_of(meta_len)) <= SEED_BUFFER_LEN
}

/// Makes the cloud-init seed image from the contents of the user-data and
/// meta-data files: the files of `seed_entries` laid out as `seed_options`
/// says, written over `SEED_BUFFER_LEN` zero bytes. The image writer alone
/// decides whether this succeeds; its failure becomes
/// `CloudInitError::IsoCreation`.
pub fn create_iso_image(user_data: Vec<u8>, meta_data: Vec<u8>) -> (r: Result<Vec<u8>, CloudInitError>)
    ensures
        r matches Ok(image) ==> is_seed_image(image@, user_data@, meta_data@),
        r matches Ok(image) ==> joliet_root_only(image@, seq!["user-data"@, "meta-data"@]),
        seed_fits(user_data@.len(), meta_data@.len()) ==> r is Ok,
{
    let ghost user = user_data@;
    let ghost meta = meta_data@;
    let options = seed_options();
    let entries = seed_entries(user_data, meta_data);
    let files = iso_input_files(entries, options.path_separator);
    let ghost held = input_files_contents(files);
    proof {
        reveal_strlit("cidata");
        reveal_strlit("user-data");
        reveal_strlit("meta-data");
        assert(held[0].0 == "user-data"@ && held[0].1 == user);
        assert(held[1].0 == "meta-data"@ && held[1].1 == meta);
        assert(is_plain_file_name(held[0].0));
        assert(is_plain_file_name(held[1].0));
        assert(writer_accepts(options));
        assert(held[0].0 != held[1].0) by {
            assert(held[0].0[0] == 'u');
            assert(held[1].0[0] == 'm');
        }
    }
    proof {
        assert(held.len() == 2);
        assert(held.drop_last().drop_last() =~= Seq::<(Seq<char>, Seq<u8>)>::empty());
        assert(held.drop_last().last() == held[0]);
        reveal_with_fuel(content_sectors, 3);
        assert(content_sectors(held) == sectors_of(user.len()) + sectors_of(meta.len()));
        assert(held.map_values(|f: (Seq<char>, Seq<u8>)| f.0) =~= seq!["user-data"@, "meta-data"@]);
    }
    let written = write_iso(files, options, SEED_BUFFER_LEN);
    assert(written matches Ok(image) ==> holds_run(image@, held[0].1) && holds_run(
        image@,
        held[1].1,
    ));
    assert(written matches Ok(image) ==> (held[0].1.len() < 0x1_0000_0000 ==> joliet_root_lists(
        image@,
        held[0].0,
        held[0].1,
    )) && (held[1].1.len() < 0x1_0000_0000 ==> joliet_root_lists(image@, held[1].0, held[1].1)));
    seed_image_outcome(written)
}

} // verus!
