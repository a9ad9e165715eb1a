//! Weight files that are stored in parts: the manifest, the checks on each
//! part, and their joining.
//!
//! Reading is the caller's; it is handed in as functions.
use crate::text::{
    chars_of, decimal, occurs, occurs_at, push_u64, push_usize, rfind_char, str_contains, str_eq,
    str_starts_with, trim, trimmed,
};
use vstd::prelude::*;
use vstd::string::*;

verus! {

/// Bytes by which a stored part may exceed its listed size: its alignment.
pub const BURNPACK_PART_ALIGNMENT: u64 = 256;

/// One listed part.
#[derive(Debug)]
pub struct BurnpackPartEntry {
    pub path: String,
    /// Listed size; zero where none is given.
    pub bytes: u64,
}

/// The list of parts of a weight file.
#[derive(Debug)]
pub struct BurnpackPartsManifest {
    /// Name of the whole file; empty where none is given.
    pub source_file: String,
    pub parts: Vec<BurnpackPartEntry>,
}

// ---------------------------------------------------------------------------
// Names and places
// ---------------------------------------------------------------------------

/// Name of the manifest that belongs to a weight file.
pub fn burnpack_parts_manifest_name(file_name: Option<&str>) -> (r: String)
    ensures
        r@ == (match file_name {
            Some(name) => name@,
            None => "model.bpk"@,
        }) + ".parts.json"@,
{
    let mut out: String = match file_name {
        Some(name) => name.to_owned(),
        None => "model.bpk".to_owned(),
    };
    out.append(".parts.json");
    out
}

/// Where a weight file is read from.
#[derive(Clone, Copy, Debug, PartialEq, Eq, Structural)]
pub enum BlobRoute {
    /// From the file itself.
    Whole,
    /// From its parts.
    Parts,
}

/// Where a weight file is read from: in a browser from its parts where they
/// are listed, otherwise from the file where it is there.
pub fn blob_route(wasm32: bool, manifest_exists: bool, burnpack_exists: bool) -> (r: BlobRoute)
    ensures
        r == (if (wasm32 && manifest_exists) || !burnpack_exists {
            BlobRoute::Parts
        } else {
            BlobRoute::Whole
        }),
{
    if wasm32 && manifest_exists {
        return BlobRoute::Parts;
    }
    if burnpack_exists {
        return BlobRoute::Whole;
    }
    BlobRoute::Parts
}

/// `s` with backslashes turned into slashes.
pub open spec fn slashed(s: Seq<char>) -> Seq<char> {
    s.map_values(
        |c: char|
            if c == '\\' {
                '/'
            } else {
                c
            },
    )
}

/// Appends a text with backslashes turned into slashes.
fn push_slashed(out: &mut String, s: &str)
    ensures
        final(out)@ == old(out)@ + slashed(s@),
{
    let ghost before = out@;
    let v: Vec<char> = chars_of(s);
    let mut i: usize = 0;
    proof {
        reveal_strlit("/");
        assert(before + slashed(s@).take(0) =~= before);
    }
    while i < v.len()
        invariant
            v@ == s@,
            i <= v.len(),
            "/"@ == seq!['/'],
            out@ == before + slashed(s@).take(i as int),
        decreases v.len() - i,
    {
        if v[i] == '\\' {
            out.append("/");
        } else {
            out.append(s.substring_char(i, i + 1));
        }
        proof {
            assert(s@.subrange(i as int, i as int + 1) =~= seq![s@[i as int]]);
            assert(slashed(s@).take(i as int + 1) =~= slashed(s@).take(i as int).push(
                slashed(s@)[i as int],
            ));
            assert(out@ =~= before + slashed(s@).take(i as int + 1));
        }
        i = i + 1;
    }
    assert(slashed(s@).take(s@.len() as int) =~= slashed(s@));
}

/// `s` without slashes at its end.
pub open spec fn without_end_slashes(s: Seq<char>) -> Seq<char>
    decreases s.len(),
{
    if s.len() > 0 && s.last() == '/' {
        without_end_slashes(s.drop_last())
    } else {
        s
    }
}

/// Position of the last slash of a text.
pub open spec fn is_last_slash(s: Seq<char>, i: int) -> bool {
    0 <= i < s.len() && s[i] == '/' && forall|j: int| i < j < s.len() ==> #[trigger] s[j] != '/'
}

/// Address of a part, given the manifest's address: complete and rooted
/// entries stand for themselves, others are relative to the manifest.
pub open spec fn part_url(manifest_url: Seq<char>, entry: Seq<char>, url: Seq<char>) -> bool {
    if occurs(entry, "://"@) || occurs_at(entry, "/"@, 0) {
        url == entry
    } else if exists|i: int| is_last_slash(manifest_url, i) {
        exists|i: int| #[trigger]
            is_last_slash(manifest_url, i) && url == without_end_slashes(manifest_url.take(i))
                + "/"@ + slashed(entry)
    } else {
        url == slashed(entry)
    }
}

/// Address of a part, given the manifest's address.
pub fn resolve_manifest_part_url(manifest_url: &str, entry: &str) -> (r: String)
    ensures
        part_url(manifest_url@, entry@, r@),
{
    if str_contains(entry, "://") || str_starts_with(entry, "/") {
        return entry.to_owned();
    }
    let v: Vec<char> = chars_of(manifest_url);
    if let Some(i) = rfind_char(&v, '/') {
        assert(is_last_slash(manifest_url@, i as int));
        let mut end: usize = i;
        proof {
            assert(v@.take(end as int) =~= manifest_url@.take(i as int));
        }
        while end > 0 && v[end - 1] == '/'
            invariant
                v@ == manifest_url@,
                end <= i < v.len(),
                without_end_slashes(v@.take(i as int)) == without_end_slashes(v@.take(end as int)),
            decreases end,
        {
            proof {
                assert(v@.take(end as int).drop_last() =~= v@.take(end as int - 1));
            }
            end = end - 1;
        }
        proof {
            assert(manifest_url@.subrange(0, end as int) =~= v@.take(end as int));
        }
        let mut out: String = manifest_url.substring_char(0, end).to_owned();
        out.append("/");
        push_slashed(&mut out, entry);
        return out;
    }
    assert forall|i: int| !is_last_slash(manifest_url@, i) by {
        if is_last_slash(manifest_url@, i) {
            assert(v@[i] != '/');
        }
    }
    let mut out: String = String::new();
    push_slashed(&mut out, entry);
    assert(out@ =~= slashed(entry@));
    out
}

// ---------------------------------------------------------------------------
// Manifest
// ---------------------------------------------------------------------------

/// The manifest names another file than the one asked for.
pub open spec fn names_other_file(source_file: Seq<char>, file_name: Option<&str>) -> bool {
    trimmed(source_file).len() > 0 && (file_name matches Some(name) && name@ != trimmed(
        source_file,
    ))
}

/// Checks a manifest: it lists parts, of the file that is asked for.
///
/// The file and its manifest are given as they are shown to the user.
pub fn check_parts_manifest(
    manifest: &BurnpackPartsManifest,
    file_name: Option<&str>,
    manifest_shown: &str,
    burnpack_shown: &str,
) -> (r: Result<(), String>)
    ensures
        if manifest.parts@.len() == 0 {
            r matches Err(msg) && msg@ == "burnpack parts manifest '"@ + manifest_shown@
                + "' contains no parts"@
        } else if names_other_file(manifest.source_file@, file_name) {
            r matches Err(msg) && msg@ == "burnpack parts manifest '"@ + manifest_shown@
                + "' source_file '"@ + manifest.source_file@ + "' does not match requested '"@
                + burnpack_shown@ + "'"@
        } else {
            r is Ok
        },
{
    if manifest.parts.len() == 0 {
        let mut out: String = "burnpack parts manifest '".to_owned();
        out.append(manifest_shown);
        out.append("' contains no parts");
        return Err(out);
    }
    let source: &str = trim(manifest.source_file.as_str());
    if !source.is_empty() {
        if let Some(name) = file_name {
            if !str_eq(name, source) {
                let mut out: String = "burnpack parts manifest '".to_owned();
                out.append(manifest_shown);
                out.append("' source_file '");
                out.append(manifest.source_file.as_str());
                out.append("' does not match requested '");
                out.append(burnpack_shown);
                out.append("'");
                return Err(out);
            }
        }
    }
    Ok(())
}

// ---------------------------------------------------------------------------
// Parts
// ---------------------------------------------------------------------------

/// A part that has been located.
#[derive(Debug)]
pub struct PartLocation {
    /// The part as it is shown to the user.
    pub shown: String,
    /// The part lies among the files in memory.
    pub is_virtual: bool,
    /// The part lies on disk.
    pub on_disk: bool,
}

/// The size of a part fits its listing: none is listed, or the file has it, or
/// the file has it up to alignment, or the payload has it.
pub open spec fn part_size_fits(listed: int, file_size: int, payload: int) -> bool {
    listed == 0 || file_size == listed || listed <= file_size <= listed + BURNPACK_PART_ALIGNMENT
        || payload == listed
}

/// Whether the size of a part fits its listing.
pub fn part_size_matches(listed: u64, file_size: u64, payload: u64) -> (r: bool)
    ensures
        r == part_size_fits(listed as int, file_size as int, payload as int),
{
    if listed == 0 {
        return true;
    }
    let matches_file_size: bool = file_size == listed;
    let matches_padded: bool = file_size >= listed && file_size - listed
        <= BURNPACK_PART_ALIGNMENT;
    let matches_payload: bool = payload == listed;
    matches_file_size || matches_padded || matches_payload
}

/// A part does not have its listed size.
pub open spec fn part_size_text(
    shown: Seq<char>,
    listed: int,
    file_size: int,
    payload: int,
) -> Seq<char> {
    "burnpack part '"@ + shown + "' size mismatch: manifest="@ + decimal(listed as nat) + " file="@
        + decimal(file_size as nat) + " payload="@ + decimal(payload as nat)
}

fn part_size_message(shown: &str, listed: u64, file_size: u64, payload: u64) -> (r: String)
    ensures
        r@ == part_size_text(shown@, listed as int, file_size as int, payload as int),
{
    let mut out: String = "burnpack part '".to_owned();
    out.append(shown);
    out.append("' size mismatch: manifest=");
    push_u64(&mut out, listed);
    out.append(" file=");
    push_u64(&mut out, file_size);
    out.append(" payload=");
    push_u64(&mut out, payload);
    out
}

/// Something that was done to a part of number `index` failed.
pub open spec fn part_failure_text(
    what: Seq<char>,
    index: int,
    count: int,
    shown: Seq<char>,
    burnpack: Seq<char>,
    err: Seq<char>,
) -> Seq<char> {
    what + decimal((index + 1) as nat) + "/"@ + decimal(count as nat) + " '"@ + shown + "' for '"@
        + burnpack + "': "@ + err
}

fn part_failure_message(
    what: &str,
    index: usize,
    count: usize,
    shown: &str,
    burnpack: &str,
    err: &str,
) -> (r: String)
    requires
        index < count,
    ensures
        r@ == part_failure_text(what@, index as int, count as int, shown@, burnpack@, err@),
{
    let mut out: String = what.to_owned();
    push_usize(&mut out, index + 1);
    out.append("/");
    push_usize(&mut out, count);
    out.append(" '");
    out.append(shown);
    out.append("' for '");
    out.append(burnpack);
    out.append("': ");
    out.append(err);
    out
}

/// A part that should have been fetched from its address is not there.
pub open spec fn not_preloaded_text(
    index: int,
    count: int,
    shown: Seq<char>,
    burnpack: Seq<char>,
    url: Seq<char>,
) -> Seq<char> {
    "burnpack part "@ + decimal((index + 1) as nat) + "/"@ + decimal(count as nat) + " '"@ + shown
        + "' for '"@ + burnpack
        + "' was not preloaded; async wasm loaders must download and register shard bytes before materialization (source_url="@
        + url + ")"@
}

fn not_preloaded_message(
    index: usize,
    count: usize,
    shown: &str,
    burnpack: &str,
    url: &str,
) -> (r: String)
    requires
        index < count,
    ensures
        r@ == not_preloaded_text(index as int, count as int, shown@, burnpack@, url@),
{
    let mut out: String = "burnpack part ".to_owned();
    push_usize(&mut out, index + 1);
    out.append("/");
    push_usize(&mut out, count);
    out.append(" '");
    out.append(shown);
    out.append("' for '");
    out.append(burnpack);
    out.append(
        "' was not preloaded; async wasm loaders must download and register shard bytes before materialization (source_url=",
    );
    out.append(url);
    out.append(")");
    out
}

/// The file of a part is there to be measured.
pub open spec fn is_measured(location: PartLocation) -> bool {
    location.is_virtual || location.on_disk
}

/// A part is read rather than expected to be preloaded.
pub open spec fn is_readable(location: PartLocation, manifest_url: Option<&str>) -> bool {
    location.is_virtual || manifest_url is None
}

/// Measuring a part's file succeeds, where the file is there.
pub open spec fn size_known<S>(stat: S, index: usize, location: PartLocation) -> bool where
    S: Fn(usize) -> Result<u64, String>,
 {
    is_measured(location) ==> exists|size: u64|
        call_ensures(stat, (index,), Ok::<u64, String>(size))
}

/// `payload` is read for a part: `size` is its file's size, measured where the
/// file is there and as listed otherwise, and `raw` what its file holds.
pub open spec fn payload_read<S, R, C>(
    entry: BurnpackPartEntry,
    index: usize,
    location: PartLocation,
    stat: S,
    read: R,
    decode: C,
    size: u64,
    raw: Vec<u8>,
    payload: Vec<u8>,
) -> bool where
    S: Fn(usize) -> Result<u64, String>,
    R: Fn(usize) -> Result<Vec<u8>, String>,
    C: Fn(&Vec<u8>) -> Result<Vec<u8>, String>,
 {
    &&& if is_measured(location) {
        call_ensures(stat, (index,), Ok::<u64, String>(size))
    } else {
        size == entry.bytes
    }
    &&& call_ensures(read, (index,), Ok::<Vec<u8>, String>(raw))
    &&& call_ensures(decode, (&raw,), Ok::<Vec<u8>, String>(payload))
}

/// What precedes the number of a part in a message about it.
pub open spec fn part_kind(location: PartLocation) -> Seq<char> {
    if location.is_virtual {
        "virtual burnpack part "@
    } else {
        "burnpack part "@
    }
}

/// `r` is what reading a located part gives: the first failure, or a payload
/// of fitting size.
pub open spec fn part_result<S, R, C>(
    entry: BurnpackPartEntry,
    index: usize,
    count: int,
    location: PartLocation,
    burnpack: Seq<char>,
    manifest_url: Option<&str>,
    stat: S,
    read: R,
    decode: C,
    r: Result<Vec<u8>, String>,
) -> bool where
    S: Fn(usize) -> Result<u64, String>,
    R: Fn(usize) -> Result<Vec<u8>, String>,
    C: Fn(&Vec<u8>) -> Result<Vec<u8>, String>,
 {
    let i = index as int;
    let shown = location.shown@;
    let readable = is_readable(location, manifest_url);
    match r {
        Ok(payload) => readable && exists|size: u64, raw: Vec<u8>| #[trigger]
            payload_read(entry, index, location, stat, read, decode, size, raw, payload)
                && part_size_fits(entry.bytes as int, size as int, payload@.len() as int),
        Err(msg) => {
            ||| is_measured(location) && exists|e: String| #[trigger]
                call_ensures(stat, (index,), Err::<u64, String>(e)) && msg@
                    == "failed to stat burnpack part '"@ + shown + "': "@ + e@
            ||| !readable && size_known(stat, index, location) && exists|url: Seq<char>| #[trigger]
                part_url(manifest_url->Some_0@, entry.path@, url) && msg@ == not_preloaded_text(
                    i,
                    count,
                    shown,
                    burnpack,
                    url,
                )
            ||| readable && size_known(stat, index, location) && exists|e: String| #[trigger]
                call_ensures(read, (index,), Err::<Vec<u8>, String>(e)) && msg@
                    == part_failure_text(
                    "failed to read "@ + part_kind(location),
                    i,
                    count,
                    shown,
                    burnpack,
                    e@,
                )
            ||| readable && size_known(stat, index, location) && exists|raw: Vec<u8>, e: String| #[trigger]
                call_ensures(decode, (&raw,), Err::<Vec<u8>, String>(e)) && call_ensures(
                    read,
                    (index,),
                    Ok::<Vec<u8>, String>(raw),
                ) && msg@ == part_failure_text(
                    "failed to decode "@ + part_kind(location),
                    i,
                    count,
                    shown,
                    burnpack,
                    e@,
                )
            ||| readable && exists|size: u64, raw: Vec<u8>, payload: Vec<u8>| #[trigger]
                payload_read(entry, index, location, stat, read, decode, size, raw, payload)
                    && !part_size_fits(entry.bytes as int, size as int, payload@.len() as int)
                    && msg@ == part_size_text(
                    shown,
                    entry.bytes as int,
                    size as int,
                    payload@.len() as int,
                )
        },
    }
}

/// Reads one located part.
///
/// `stat` measures the part's file, `read` reads it, `decode` takes the payload
/// out of it.
pub fn load_part<S, R, C>(
    entry: &BurnpackPartEntry,
    index: usize,
    count: usize,
    location: &PartLocation,
    burnpack_shown: &str,
    manifest_url: Option<&str>,
    stat: &S,
    read: &R,
    decode: &C,
) -> (r: Result<Vec<u8>, String>) where
    S: Fn(usize) -> Result<u64, String>,
    R: Fn(usize) -> Result<Vec<u8>, String>,
    C: Fn(&Vec<u8>) -> Result<Vec<u8>, String>,

    requires
        index < count,
        forall|i: usize| call_requires(*stat, (i,)),
        forall|i: usize| call_requires(*read, (i,)),
        forall|raw: &Vec<u8>| call_requires(*decode, (raw,)),
    ensures
        part_result(
            *entry,
            index,
            count as int,
            *location,
            burnpack_shown@,
            manifest_url,
            *stat,
            *read,
            *decode,
            r,
        ),
{
    let measured: bool = location.is_virtual || location.on_disk;
    let size: u64 = if measured {
        match stat(index) {
            Ok(size) => size,
            Err(e) => {
                let mut out: String = "failed to stat burnpack part '".to_owned();
                out.append(location.shown.as_str());
                out.append("': ");
                out.append(e.as_str());
                return Err(out);
            },
        }
    } else {
        entry.bytes
    };
    assert(size_known(*stat, index, *location));
    if !location.is_virtual {
        if let Some(base) = manifest_url {
            let url: String = resolve_manifest_part_url(base, entry.path.as_str());
            assert(part_url(base@, entry.path@, url@));
            return Err(
                not_preloaded_message(
                    index,
                    count,
                    location.shown.as_str(),
                    burnpack_shown,
                    url.as_str(),
                ),
            );
        }
    }
    let mut read_failure: String = "failed to read ".to_owned();
    let mut decode_failure: String = "failed to decode ".to_owned();
    if location.is_virtual {
        read_failure.append("virtual burnpack part ");
        decode_failure.append("virtual burnpack part ");
    } else {
        read_failure.append("burnpack part ");
        decode_failure.append("burnpack part ");
    }
    let raw: Vec<u8> = match read(index) {
        Ok(raw) => raw,
        Err(e) => {
            return Err(
                part_failure_message(
                    read_failure.as_str(),
                    index,
                    count,
                    location.shown.as_str(),
                    burnpack_shown,
                    e.as_str(),
                ),
            );
        },
    };
    let payload: Vec<u8> = match decode(&raw) {
        Ok(payload) => payload,
        Err(e) => {
            return Err(
                part_failure_message(
                    decode_failure.as_str(),
                    index,
                    count,
                    location.shown.as_str(),
                    burnpack_shown,
                    e.as_str(),
                ),
            );
        },
    };
    assert(payload_read(*entry, index, *location, *stat, *read, *decode, size, raw, payload));
    if !part_size_matches(entry.bytes, size, payload.len() as u64) {
        return Err(
            part_size_message(
                location.shown.as_str(),
                entry.bytes,
                size,
                payload.len() as u64,
            ),
        );
    }
    Ok(payload)
}

/// The first parts of a manifest were read, and gave `payloads`.
pub open spec fn parts_read<L, S, R, C>(
    manifest: BurnpackPartsManifest,
    burnpack_shown: Seq<char>,
    manifest_url: Option<&str>,
    locate: L,
    stat: S,
    read: R,
    decode: C,
    payloads: Seq<Vec<u8>>,
) -> bool where
    L: Fn(usize) -> Result<PartLocation, String>,
    S: Fn(usize) -> Result<u64, String>,
    R: Fn(usize) -> Result<Vec<u8>, String>,
    C: Fn(&Vec<u8>) -> Result<Vec<u8>, String>,
 {
    payloads.len() <= manifest.parts@.len() && forall|i: int|
        0 <= i < payloads.len() ==> part_reads(
            manifest,
            i as usize,
            burnpack_shown,
            manifest_url,
            locate,
            stat,
            read,
            decode,
            Ok(#[trigger] payloads[i]),
        )
}

/// Outcome of joining the parts of a manifest: all payloads in order, or the
/// failure of the part behind those that were read.
pub open spec fn merge_outcome<L, S, R, C>(
    manifest: BurnpackPartsManifest,
    burnpack_shown: Seq<char>,
    manifest_url: Option<&str>,
    locate: L,
    stat: S,
    read: R,
    decode: C,
    out: Result<Vec<u8>, String>,
) -> bool where
    L: Fn(usize) -> Result<PartLocation, String>,
    S: Fn(usize) -> Result<u64, String>,
    R: Fn(usize) -> Result<Vec<u8>, String>,
    C: Fn(&Vec<u8>) -> Result<Vec<u8>, String>,
 {
    exists|payloads: Seq<Vec<u8>>| #[trigger]
        parts_read(
            manifest,
            burnpack_shown,
            manifest_url,
            locate,
            stat,
            read,
            decode,
            payloads,
        ) && match out {
            Ok(merged) => payloads.len() == manifest.parts@.len() && merged@ == joined_payloads(
                payloads,
            ),
            Err(msg) => payloads.len() < manifest.parts@.len() && part_fails(
                manifest,
                payloads.len() as usize,
                burnpack_shown,
                manifest_url,
                locate,
                stat,
                read,
                decode,
                msg,
            ),
        }
}

/// Reads all parts and joins their payloads in order; the first failure ends
/// the reading.
///
/// `locate` finds the part of a number.
pub fn merge_burnpack_parts<L, S, R, C>(
    manifest: &BurnpackPartsManifest,
    burnpack_shown: &str,
    manifest_url: Option<&str>,
    locate: L,
    stat: S,
    read: R,
    decode: C,
) -> (r: Result<Vec<u8>, String>) where
    L: Fn(usize) -> Result<PartLocation, String>,
    S: Fn(usize) -> Result<u64, String>,
    R: Fn(usize) -> Result<Vec<u8>, String>,
    C: Fn(&Vec<u8>) -> Result<Vec<u8>, String>,

    requires
        forall|i: usize| call_requires(locate, (i,)),
        forall|i: usize| call_requires(stat, (i,)),
        forall|i: usize| call_requires(read, (i,)),
        forall|raw: &Vec<u8>| call_requires(decode, (raw,)),
    ensures
        merge_outcome(
            *manifest,
            burnpack_shown@,
            manifest_url,
            locate,
            stat,
            read,
            decode,
            r,
        ),
{
    let count: usize = manifest.parts.len();
    let mut merged: Vec<u8> = Vec::new();
    let ghost mut payloads: Seq<Vec<u8>> = Seq::empty();
    let mut i: usize = 0;
    while i < count
        invariant
            i <= count,
            count == manifest.parts@.len(),
            forall|i: usize| call_requires(locate, (i,)),
            forall|i: usize| call_requires(stat, (i,)),
            forall|i: usize| call_requires(read, (i,)),
            forall|raw: &Vec<u8>| call_requires(decode, (raw,)),
            payloads.len() == i,
            merged@ == joined_payloads(payloads),
            parts_read(
                *manifest,
                burnpack_shown@,
                manifest_url,
                locate,
                stat,
                read,
                decode,
                payloads,
            ),
        decreases count - i,
    {
        let location: PartLocation = match locate(i) {
            Ok(location) => location,
            Err(msg) => {
                let failed: Result<Vec<u8>, String> = Err(msg);
                assert(part_fails(
                    *manifest,
                    i,
                    burnpack_shown@,
                    manifest_url,
                    locate,
                    stat,
                    read,
                    decode,
                    failed->Err_0,
                ));
                return failed;
            },
        };
        let entry: &BurnpackPartEntry = &manifest.parts[i];
        match load_part(
            entry,
            i,
            count,
            &location,
            burnpack_shown,
            manifest_url,
            &stat,
            &read,
            &decode,
        ) {
            Ok(payload) => {
                let ghost old_payloads = payloads;
                proof {
                    assert(part_reads(
                        *manifest,
                        i,
                        burnpack_shown@,
                        manifest_url,
                        locate,
                        stat,
                        read,
                        decode,
                        Ok(payload),
                    ));
                    payloads = payloads.push(payload);
                    assert(payloads.drop_last() =~= old_payloads);
                    assert forall|j: int| 0 <= j < payloads.len() implies part_reads(
                        *manifest,
                        j as usize,
                        burnpack_shown@,
                        manifest_url,
                        locate,
                        stat,
                        read,
                        decode,
                        Ok(#[trigger] payloads[j]),
                    ) by {
                        if j < i {
                            assert(payloads[j] == old_payloads[j]);
                        }
                    }
                }
                let mut bytes: Vec<u8> = payload;
                merged.append(&mut bytes);
            },
            Err(msg) => {
                assert(part_fails(
                    *manifest,
                    i,
                    burnpack_shown@,
                    manifest_url,
                    locate,
                    stat,
                    read,
                    decode,
                    msg,
                ));
                return Err(msg);
            },
        }
        i = i + 1;
    }
    Ok(merged)
}

/// Payloads one after the other.
pub open spec fn joined_payloads(payloads: Seq<Vec<u8>>) -> Seq<u8>
    decreases payloads.len(),
{
    if payloads.len() == 0 {
        Seq::empty()
    } else {
        joined_payloads(payloads.drop_last()) + payloads.last()@
    }
}

/// The part of number `index` is located, and reading it gives `r`.
pub open spec fn part_reads<L, S, R, C>(
    manifest: BurnpackPartsManifest,
    index: usize,
    burnpack: Seq<char>,
    manifest_url: Option<&str>,
    locate: L,
    stat: S,
    read: R,
    decode: C,
    r: Result<Vec<u8>, String>,
) -> bool where
    L: Fn(usize) -> Result<PartLocation, String>,
    S: Fn(usize) -> Result<u64, String>,
    R: Fn(usize) -> Result<Vec<u8>, String>,
    C: Fn(&Vec<u8>) -> Result<Vec<u8>, String>,
 {
    exists|location: PartLocation| #[trigger]
        call_ensures(locate, (index,), Ok(location)) && part_result(
            manifest.parts@[index as int],
            index,
            manifest.parts@.len() as int,
            location,
            burnpack,
            manifest_url,
            stat,
            read,
            decode,
            r,
        )
}

/// The part of number `index` cannot be located, or reading it fails, with `msg`.
pub open spec fn part_fails<L, S, R, C>(
    manifest: BurnpackPartsManifest,
    index: usize,
    burnpack: Seq<char>,
    manifest_url: Option<&str>,
    locate: L,
    stat: S,
    read: R,
    decode: C,
    msg: String,
) -> bool where
    L: Fn(usize) -> Result<PartLocation, String>,
    S: Fn(usize) -> Result<u64, String>,
    R: Fn(usize) -> Result<Vec<u8>, String>,
    C: Fn(&Vec<u8>) -> Result<Vec<u8>, String>,
 {
    call_ensures(locate, (index,), Err::<PartLocation, String>(msg)) || part_reads(
        manifest,
        index,
        burnpack,
        manifest_url,
        locate,
        stat,
        read,
        decode,
        Err(msg),
    )
}

// ---------------------------------------------------------------------------
// Whole files
// ---------------------------------------------------------------------------

/// Why there is no manifest.
#[derive(Debug)]
pub enum ManifestError {
    /// Its file cannot be read.
    Read(String),
    /// Its file does not parse.
    Parse(String),
}

/// Why a manifest is refused.
pub open spec fn manifest_fault(
    manifest: Result<BurnpackPartsManifest, ManifestError>,
    file_name: Option<&str>,
    manifest_shown: Seq<char>,
    burnpack_shown: Seq<char>,
) -> Option<Seq<char>> {
    match manifest {
        Err(ManifestError::Read(e)) => Some(
            "failed to read burnpack parts manifest '"@ + manifest_shown + "': "@ + e@,
        ),
        Err(ManifestError::Parse(e)) => Some(
            "failed to parse burnpack parts manifest '"@ + manifest_shown + "': "@ + e@,
        ),
        Ok(listed) => if listed.parts@.len() == 0 {
            Some("burnpack parts manifest '"@ + manifest_shown + "' contains no parts"@)
        } else if names_other_file(listed.source_file@, file_name) {
            Some(
                "burnpack parts manifest '"@ + manifest_shown + "' source_file '"@
                    + listed.source_file@ + "' does not match requested '"@ + burnpack_shown
                    + "'"@,
            )
        } else {
            None
        },
    }
}

fn manifest_failure(what: &str, manifest_shown: &str, error: &str) -> (r: String)
    ensures
        r@ == what@ + manifest_shown@ + "': "@ + error@,
{
    let mut out: String = what.to_owned();
    out.append(manifest_shown);
    out.append("': ");
    out.append(error);
    out
}

/// Outcome of reading a weight file from the parts that its manifest lists.
pub open spec fn parts_outcome<L, S, R, C>(
    manifest: Result<BurnpackPartsManifest, ManifestError>,
    file_name: Option<&str>,
    manifest_shown: Seq<char>,
    burnpack_shown: Seq<char>,
    manifest_url: Option<&str>,
    locate: L,
    stat: S,
    read: R,
    decode: C,
    out: Result<Vec<u8>, String>,
) -> bool where
    L: Fn(usize) -> Result<PartLocation, String>,
    S: Fn(usize) -> Result<u64, String>,
    R: Fn(usize) -> Result<Vec<u8>, String>,
    C: Fn(&Vec<u8>) -> Result<Vec<u8>, String>,
 {
    match manifest_fault(manifest, file_name, manifest_shown, burnpack_shown) {
        Some(text) => out matches Err(msg) && msg@ == text,
        None => manifest matches Ok(listed) && merge_outcome(
            listed,
            burnpack_shown,
            manifest_url,
            locate,
            stat,
            read,
            decode,
            out,
        ),
    }
}

/// Reads a weight file from the parts that its manifest lists.
pub fn load_blob_bytes_from_burnpack_parts<L, S, R, C>(
    manifest: &Result<BurnpackPartsManifest, ManifestError>,
    file_name: Option<&str>,
    manifest_shown: &str,
    burnpack_shown: &str,
    manifest_url: Option<&str>,
    locate: L,
    stat: S,
    read: R,
    decode: C,
) -> (r: Result<Vec<u8>, String>) where
    L: Fn(usize) -> Result<PartLocation, String>,
    S: Fn(usize) -> Result<u64, String>,
    R: Fn(usize) -> Result<Vec<u8>, String>,
    C: Fn(&Vec<u8>) -> Result<Vec<u8>, String>,

    requires
        forall|i: usize| call_requires(locate, (i,)),
        forall|i: usize| call_requires(stat, (i,)),
        forall|i: usize| call_requires(read, (i,)),
        forall|raw: &Vec<u8>| call_requires(decode, (raw,)),
    ensures
        parts_outcome(
            *manifest,
            file_name,
            manifest_shown@,
            burnpack_shown@,
            manifest_url,
            locate,
            stat,
            read,
            decode,
            r,
        ),
{
    match manifest {
        Err(ManifestError::Read(e)) => Err(
            manifest_failure(
                "failed to read burnpack parts manifest '",
                manifest_shown,
                e.as_str(),
            ),
        ),
        Err(ManifestError::Parse(e)) => Err(
            manifest_failure(
                "failed to parse burnpack parts manifest '",
                manifest_shown,
                e.as_str(),
            ),
        ),
        Ok(listed) => match check_parts_manifest(
            listed,
            file_name,
            manifest_shown,
            burnpack_shown,
        ) {
            Err(msg) => Err(msg),
            Ok(()) => merge_burnpack_parts(
                listed,
                burnpack_shown,
                manifest_url,
                locate,
                stat,
                read,
                decode,
            ),
        },
    }
}

/// Reads a weight file, from itself by `whole` or from its parts by `parts`.
pub fn load_blob_bytes_from_burnpack_or_parts<W, P>(
    wasm32: bool,
    manifest_exists: bool,
    burnpack_exists: bool,
    whole: W,
    parts: P,
) -> (r: Result<Vec<u8>, String>) where
    W: FnOnce() -> Result<Vec<u8>, String>,
    P: FnOnce() -> Result<Vec<u8>, String>,

    requires
        if (wasm32 && manifest_exists) || !burnpack_exists {
            call_requires(parts, ())
        } else {
            call_requires(whole, ())
        },
    ensures
        if (wasm32 && manifest_exists) || !burnpack_exists {
            call_ensures(parts, (), r)
        } else {
            call_ensures(whole, (), r)
        },
{
    match blob_route(wasm32, manifest_exists, burnpack_exists) {
        BlobRoute::Whole => whole(),
        BlobRoute::Parts => parts(),
    }
}

} // verus!
