//! Shared image helpers: PNG encoding and crash-safe sibling-temp publishing.
//!
//! Any feature that writes a media file beside user content publishes through
//! [`SiblingTemp`], so a crash never leaves a half-written file at the destination.

use crate::text::{concat2, concat3, decimal, decimal_string, lemma_decimal_injective};
use vstd::prelude::*;

verus! {

// ---------------------------------------------------------------------------
// PNG
// ---------------------------------------------------------------------------

/// Speed and size of the compression.
#[derive(Debug, Clone, Copy, PartialEq, Eq, Structural)]
pub enum PngCompression {
    Default,
    Fast,
    Best,
}

/// The PNG file that the encoder makes of RGBA pixels of eight bits per channel, set to the
/// `Sub` filter and this compression.
pub uninterp spec fn png_file(
    width: u32,
    height: u32,
    rgba: Seq<u8>,
    compression: PngCompression,
) -> Seq<u8>;

/// The pixels fill an image of that size.
pub open spec fn fills_image(width: u32, height: u32, rgba: Seq<u8>) -> bool {
    width > 0 && height > 0 && rgba.len() == 4 * width * height
}

/// Calls `png::Encoder` with eight-bit RGBA and the `Sub` filter, writing into memory.
/// It fails on an empty image and on pixels that do not fill the image, and on nothing
/// else; the file is a function of the arguments.
#[verifier::external_body]
fn png_encode(width: u32, height: u32, rgba: &[u8], compression: PngCompression) -> (file: Option<
    Vec<u8>,
>)
    requires
        4 * width * height <= usize::MAX,
    ensures
        match file {
            Some(bytes) => fills_image(width, height, rgba@) && bytes@ == png_file(
                width,
                height,
                rgba@,
                compression,
            ),
            None => !fills_image(width, height, rgba@),
        },
{
    let mut out = Vec::new();
    let mut encoder = png::Encoder::new(&mut out, width, height);
    encoder.set_color(png::ColorType::Rgba);
    encoder.set_depth(png::BitDepth::Eight);
    encoder.set_filter(png::FilterType::Sub);
    encoder.set_compression(match compression {
        PngCompression::Default => png::Compression::Default,
        PngCompression::Fast => png::Compression::Fast,
        PngCompression::Best => png::Compression::Best,
    });
    let mut writer = encoder.write_header().ok()?;
    writer.write_image_data(rgba).ok()?;
    drop(writer);
    Some(out)
}

/// Encodes tightly packed RGBA pixels as a PNG with default compression.
pub fn encode_rgba_png(width: u32, height: u32, rgba: &[u8]) -> (file: Option<Vec<u8>>)
    requires
        4 * width * height <= usize::MAX,
    ensures
        match file {
            Some(bytes) => fills_image(width, height, rgba@) && bytes@ == png_file(
                width,
                height,
                rgba@,
                PngCompression::Default,
            ),
            None => !fills_image(width, height, rgba@),
        },
{
    encode_rgba_png_with(width, height, rgba, PngCompression::Default)
}

/// Encodes tightly packed RGBA pixels as a PNG. Full-resolution frames are large, so the
/// caller picks between speed and size.
pub fn encode_rgba_png_with(width: u32, height: u32, rgba: &[u8], compression: PngCompression) -> (
file: Option<Vec<u8>>)
    requires
        4 * width * height <= usize::MAX,
    ensures
        match file {
            Some(bytes) => fills_image(width, height, rgba@) && bytes@ == png_file(
                width,
                height,
                rgba@,
                compression,
            ),
            None => !fills_image(width, height, rgba@),
        },
{
    png_encode(width, height, rgba, compression)
}

// ---------------------------------------------------------------------------
// Sibling temp files
// ---------------------------------------------------------------------------

/// Names for temp files of one process: every one is made with a number of its own.
#[derive(Debug, PartialEq, Eq)]
pub struct SiblingNames {
    pub pid: u32,
    pub next_id: u64,
}

/// The name of a temp file beside the file of that name.
pub open spec fn sibling_name(file_name: Seq<char>, pid: u32, id: u64) -> Seq<char> {
    file_name + ".tmp."@ + decimal(pid as nat) + "."@ + decimal(id as nat)
}

fn make_sibling_name(file_name: &str, pid: u32, id: u64) -> (name: String)
    ensures
        name@ == sibling_name(file_name@, pid, id),
{
    let process = decimal_string(pid as u64);
    let number = decimal_string(id);
    let mut name = concat3(file_name, ".tmp.", process.as_str());
    name.append(".");
    name.append(number.as_str());
    name
}

/// Temp files with different numbers have different names.
pub proof fn law_sibling_names_differ(file_name: Seq<char>, pid: u32, a: u64, b: u64)
    requires
        a != b,
    ensures
        sibling_name(file_name, pid, a) != sibling_name(file_name, pid, b),
{
    let head = file_name + ".tmp."@ + decimal(pid as nat) + "."@;
    if sibling_name(file_name, pid, a) == sibling_name(file_name, pid, b) {
        assert(sibling_name(file_name, pid, a).skip(head.len() as int) =~= decimal(a as nat));
        assert(sibling_name(file_name, pid, b).skip(head.len() as int) =~= decimal(b as nat));
        lemma_decimal_injective(a as nat, b as nat);
    }
}

/// What creating a file under a new name gave.
#[derive(Debug, PartialEq, Eq)]
pub enum CreateOutcome {
    Created,
    AlreadyExists,
    Failed(String),
}

/// Names that are tried before the reservation gives up.
pub const RESERVE_ATTEMPTS: u64 = 64;

/// A temp file next to its destination, so that publishing is a rename on one volume.
/// One that is still armed when it is done with is removed.
#[derive(Debug, PartialEq, Eq)]
pub struct SiblingTemp {
    pub name: String,
    pub open: bool,
    pub armed: bool,
}

/// The number after `k` more names.
pub open spec fn id_after(id: u64, k: int) -> u64 {
    ((id + k) % 0x1_0000_0000_0000_0000) as u64
}

/// Whether the first `k` names were taken.
pub open spec fn all_taken<C: Fn(&str) -> CreateOutcome>(
    create: C,
    file_name: Seq<char>,
    pid: u32,
    first: u64,
    k: int,
) -> bool {
    forall|i: int|
        0 <= i < k ==> taken(
            create,
            sibling_name(file_name, pid, #[trigger] id_after(first, i)),
        )
}

/// Whether the names up to that of number `k` were tried, those before it were taken, and it
/// gave this outcome. The numbers that were used are not used again.
pub open spec fn reserved_at<C: Fn(&str) -> CreateOutcome>(
    create: C,
    file_name: Seq<char>,
    before: SiblingNames,
    after: SiblingNames,
    k: int,
    outcome: CreateOutcome,
) -> bool {
    &&& 0 <= k < RESERVE_ATTEMPTS
    &&& all_taken(create, file_name, before.pid, before.next_id, k)
    &&& exists|name: &str| #[trigger]
        call_ensures(create, (name,), outcome) && name@ == sibling_name(
            file_name,
            before.pid,
            id_after(before.next_id, k),
        )
    &&& after == (SiblingNames { next_id: id_after(before.next_id, k + 1), ..before })
}

/// Whether this name was the first that was not taken, and was created.
pub open spec fn took_name<C: Fn(&str) -> CreateOutcome>(
    create: C,
    file_name: Seq<char>,
    before: SiblingNames,
    after: SiblingNames,
    name: Seq<char>,
) -> bool {
    exists|k: int| #[trigger]
        reserved_at(create, file_name, before, after, k, CreateOutcome::Created) && name
            == sibling_name(file_name, before.pid, id_after(before.next_id, k))
}

/// Whether the first name that was not taken could not be created, with this message.
pub open spec fn stopped_reserving<C: Fn(&str) -> CreateOutcome>(
    create: C,
    file_name: Seq<char>,
    before: SiblingNames,
    after: SiblingNames,
    message: Seq<char>,
) -> bool {
    exists|k: int, text: String| #[trigger]
        reserved_at(create, file_name, before, after, k, CreateOutcome::Failed(text)) && message
            == "reserve sibling temp: "@ + text@
}

impl SiblingTemp {
    /// Creates a temp file beside the destination's file name. Names that are taken are
    /// passed over; any other error ends the reservation.
    pub fn reserve<C: Fn(&str) -> CreateOutcome>(
        file_name: Option<&str>,
        names: &mut SiblingNames,
        create: &C,
    ) -> (res: Result<SiblingTemp, String>)
        requires
            forall|name: &str, k: int|
                #![trigger call_requires(*create, (name,)), id_after(old(names).next_id, k)]
                file_name is Some && 0 <= k < RESERVE_ATTEMPTS && all_taken(
                    *create,
                    file_name->0@,
                    old(names).pid,
                    old(names).next_id,
                    k,
                ) && name@ == sibling_name(
                    file_name->0@,
                    old(names).pid,
                    id_after(old(names).next_id, k),
                ) ==> call_requires(*create, (name,)),
        ensures
            final(names).pid == old(names).pid,
            file_name is None ==> *final(names) == *old(names) && (res matches Err(message)
                && message@ == "destination path has no file name"@),
            file_name matches Some(file) ==> match res {
                Ok(temp) => {
                    &&& temp.open
                    &&& temp.armed
                    &&& took_name(*create, file@, *old(names), *final(names), temp.name@)
                },
                Err(message) => {
                    ||| {
                        &&& message@ == "reserve sibling temp: unique-name attempts exhausted"@
                        &&& all_taken(
                            *create,
                            file@,
                            old(names).pid,
                            old(names).next_id,
                            RESERVE_ATTEMPTS as int,
                        )
                        &&& final(names).next_id == id_after(
                            old(names).next_id,
                            RESERVE_ATTEMPTS as int,
                        )
                    }
                    ||| stopped_reserving(*create, file@, *old(names), *final(names), message@)
                },
            },
    {
        let file = match file_name {
            Some(file) => file,
            None => return Err("destination path has no file name".to_owned()),
        };
        let ghost first = names.next_id;
        let ghost pid = names.pid;
        let mut attempt: u64 = 0;
        while attempt < RESERVE_ATTEMPTS
            invariant
                attempt <= RESERVE_ATTEMPTS,
                forall|name: &str, k: int|
                    #![trigger call_requires(*create, (name,)), id_after(first, k)]
                    0 <= k < RESERVE_ATTEMPTS && all_taken(*create, file@, pid, first, k) && name@
                        == sibling_name(file@, pid, id_after(first, k)) ==> call_requires(
                        *create,
                        (name,),
                    ),
                names.pid == pid,
                names.next_id == id_after(first, attempt as int),
                file_name == Some(file),
                pid == old(names).pid,
                first == old(names).next_id,
                all_taken(*create, file@, pid, first, attempt as int),
            decreases RESERVE_ATTEMPTS - attempt,
        {
            let id: u64 = names.next_id;
            names.next_id = names.next_id.wrapping_add(1);
            let name = make_sibling_name(file, names.pid, id);
            assert(name@ == sibling_name(file@, pid, id_after(first, attempt as int)));
            let text = name.as_str();
            let outcome = create(text);
            assert(call_ensures(*create, (text,), outcome));
            assert(reserved_at(*create, file@, *old(names), *names, attempt as int, outcome));
            match outcome {
                CreateOutcome::Created => {
                    assert(took_name(*create, file@, *old(names), *names, name@));
                    return Ok(SiblingTemp { name, open: true, armed: true });
                },
                CreateOutcome::AlreadyExists => {
                    assert(taken(
                        *create,
                        sibling_name(file@, pid, id_after(first, attempt as int)),
                    ));
                },
                CreateOutcome::Failed(error) => {
                    let message = concat2("reserve sibling temp: ", error.as_str());
                    assert(stopped_reserving(*create, file@, *old(names), *names, message@));
                    return Err(message);
                },
            }
            attempt += 1;
        }
        Err("reserve sibling temp: unique-name attempts exhausted".to_owned())
    }

    /// Writes through `write` while the file is open.
    pub fn write_all<W: FnOnce(&[u8]) -> Result<(), String>>(&mut self, bytes: &[u8], write: W) -> (
    res: Result<(), String>)
        requires
            old(self).open ==> call_requires(write, (bytes,)),
        ensures
            *final(self) == *old(self),
            if !old(self).open {
                res matches Err(message) && message@ == "sibling temp is already closed"@
            } else {
                match res {
                    Ok(done) => call_ensures(write, (bytes,), Ok::<(), String>(done)),
                    Err(message) => exists|text: String| #[trigger]
                        call_ensures(write, (bytes,), Err::<(), String>(text)) && message@
                            == "write sibling temp: "@ + text@,
                }
            },
    {
        if !self.open {
            return Err("sibling temp is already closed".to_owned());
        }
        match write(bytes) {
            Ok(done) => Ok(done),
            Err(text) => Err(concat2("write sibling temp: ", text.as_str())),
        }
    }

    /// Closes the file and lets `replace` move it over the destination. Where that fails
    /// the temp stays armed, so it is removed.
    pub fn publish<R: FnOnce(&str) -> Result<(), String>>(&mut self, replace: R) -> (res: Result<
        (),
        String,
    >)
        requires
            forall|name: &str|
                name@ == old(self).name@ ==> #[trigger] call_requires(replace, (name,)),
        ensures
            final(self).name == old(self).name,
            !final(self).open,
            final(self).armed == (old(self).armed && res is Err),
            match res {
                Ok(done) => exists|name: &str|
                    name@ == old(self).name@ && #[trigger] call_ensures(
                        replace,
                        (name,),
                        Ok::<(), String>(done),
                    ),
                Err(message) => exists|name: &str, text: String|
                    name@ == old(self).name@ && #[trigger] call_ensures(
                        replace,
                        (name,),
                        Err::<(), String>(text),
                    ) && message@ == "finalize sibling temp: "@ + text@,
            },
    {
        self.open = false;
        let name = self.name.as_str();
        let outcome = replace(name);
        assert(call_ensures(replace, (name,), outcome));
        match outcome {
            Ok(done) => {
                self.armed = false;
                Ok(done)
            },
            Err(text) => Err(concat2("finalize sibling temp: ", text.as_str())),
        }
    }

    /// Whether the file is removed when the temp is done with.
    pub fn must_remove(&self) -> (r: bool)
        ensures
            r == self.armed,
    {
        self.armed
    }
}

/// A file of that name was found.
pub open spec fn taken<C: Fn(&str) -> CreateOutcome>(create: C, name: Seq<char>) -> bool {
    exists|text: &str|
        text@ == name && #[trigger] call_ensures(create, (text,), CreateOutcome::AlreadyExists)
}

/// The file that is written first stands beside the one that it replaces, under its name with the
/// process and a number behind it; the numbers follow each other and begin again after the last.
pub proof fn law_sibling_names(file_name: Seq<char>, pid: u32, id: u64, k: int)
    requires
        0 <= k,
    ensures
        sibling_name(file_name, pid, id) == file_name + ".tmp."@ + decimal(pid as nat) + "."@ + decimal(
            id as nat,
        ),
        id + k <= 0xffff_ffff_ffff_ffff ==> id_after(id, k) == id + k,
        id_after(0xffff_ffff_ffff_ffff, 1) == 0,
{
}

/// An image is written exactly where it has a side, and four bytes for every pixel.
pub proof fn law_pixels_fill_an_image(width: u32, height: u32, rgba: Seq<u8>)
    ensures
        fills_image(width, height, rgba) <==> width != 0 && height != 0 && rgba.len() == 4 * (width
            * height),
{
    assert(4 * width * height == 4 * (width * height)) by (nonlinear_arith);
}

/// A reserved name is the first of at most 64 that was free: the names of the numbers before it
/// were taken, and no number is used again.
pub proof fn law_first_free_sibling_is_reserved<C: Fn(&str) -> CreateOutcome>(
    create: C,
    file_name: Seq<char>,
    before: SiblingNames,
    after: SiblingNames,
    name: Seq<char>,
    i: int,
) -> (k: int)
    requires
        took_name(create, file_name, before, after, name),
    ensures
        0 <= k < 64,
        name == sibling_name(file_name, before.pid, id_after(before.next_id, k)),
        exists|text: &str| #[trigger]
            call_ensures(create, (text,), CreateOutcome::Created) && text@ == name,
        0 <= i < k ==> exists|text: &str|
            text@ == sibling_name(file_name, before.pid, id_after(before.next_id, i))
                && #[trigger] call_ensures(create, (text,), CreateOutcome::AlreadyExists),
        after.next_id == id_after(before.next_id, k + 1),
{
    let k = choose|k: int| #[trigger]
        reserved_at(create, file_name, before, after, k, CreateOutcome::Created) && name
            == sibling_name(file_name, before.pid, id_after(before.next_id, k));
    if 0 <= i < k {
        assert(taken(create, sibling_name(file_name, before.pid, id_after(before.next_id, i))));
    }
    k
}

/// Where a name that is free cannot be created, no other is tried, and the error says why.
pub proof fn law_failed_reservation_is_told<C: Fn(&str) -> CreateOutcome>(
    create: C,
    file_name: Seq<char>,
    before: SiblingNames,
    after: SiblingNames,
    message: Seq<char>,
) -> (k: int)
    requires
        stopped_reserving(create, file_name, before, after, message),
    ensures
        0 <= k < 64,
        exists|name: &str, text: String| #[trigger]
            call_ensures(create, (name,), CreateOutcome::Failed(text)) && name@ == sibling_name(
                file_name,
                before.pid,
                id_after(before.next_id, k),
            ) && message == "reserve sibling temp: "@ + text@,
        after.next_id == id_after(before.next_id, k + 1),
{
    let (k, text) = choose|k: int, text: String| #[trigger]
        reserved_at(create, file_name, before, after, k, CreateOutcome::Failed(text)) && message
            == "reserve sibling temp: "@ + text@;
    assert(exists|name: &str| #[trigger]
        call_ensures(create, (name,), CreateOutcome::Failed(text)) && name@ == sibling_name(
            file_name,
            before.pid,
            id_after(before.next_id, k),
        ));
    k
}

} // verus!
