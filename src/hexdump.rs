//! The hex-dump text format for program images: lines of the form
//! `XXXX: BB BB BB ...`, a four-digit hexadecimal address, a colon, and the
//! bytes stored from that address on as hexadecimal numbers separated by
//! blanks. Text is handled as ASCII bytes.
use vstd::prelude::*;

verus! {

/// Why a hex-dump line was rejected.
#[derive(Clone, Copy, Debug, PartialEq, Eq, Structural)]
pub enum FormatError {
    /// The fifth character is not `:`.
    MissingColon,
    /// The first four characters are not hexadecimal digits.
    BadAddress,
    /// A byte is not one or two hexadecimal digits.
    BadByte,
}

/// The value of the hexadecimal digit `c`, if it is one.
pub open spec fn hex_digit(c: u8) -> Option<u8> {
    if 0x30 <= c <= 0x39 {
        Some((c - 0x30) as u8)
    } else if 0x61 <= c <= 0x66 {
        Some((c - 0x61 + 10) as u8)
    } else if 0x41 <= c <= 0x46 {
        Some((c - 0x41 + 10) as u8)
    } else {
        None
    }
}

/// The address in the first four characters of `line`.
pub open spec fn line_address(line: Seq<u8>) -> Option<u16> {
    if line.len() >= 4 && hex_digit(line[0]) is Some && hex_digit(line[1]) is Some && hex_digit(
        line[2],
    ) is Some && hex_digit(line[3]) is Some {
        Some(
            (hex_digit(line[0])->0 * 4096 + hex_digit(line[1])->0 * 256 + hex_digit(line[2])->0 * 16
                + hex_digit(line[3])->0) as u16,
        )
    } else {
        None
    }
}

/// The bytes written in `s`: numbers of one or two hexadecimal digits,
/// separated by any number of blanks.
pub open spec fn line_bytes(s: Seq<u8>) -> Option<Seq<u8>>
    decreases s.len(),
{
    if s.len() == 0 {
        Some(Seq::empty())
    } else if s[0] == 0x20 {
        line_bytes(s.drop_first())
    } else if hex_digit(s[0]) is Some && (s.len() == 1 || s[1] == 0x20) {
        match line_bytes(s.subrange(1, s.len() as int)) {
            Some(r) => Some(seq![hex_digit(s[0])->0] + r),
            None => None,
        }
    } else if s.len() >= 2 && hex_digit(s[0]) is Some && hex_digit(s[1]) is Some && (s.len() == 2
        || s[2] == 0x20) {
        match line_bytes(s.subrange(2, s.len() as int)) {
            Some(r) => Some(seq![(hex_digit(s[0])->0 * 16 + hex_digit(s[1])->0) as u8] + r),
            None => None,
        }
    } else {
        None
    }
}

/// The characters after the address, the colon and the one after it.
pub open spec fn line_rest(line: Seq<u8>) -> Seq<u8> {
    if line.len() > 6 {
        line.subrange(6, line.len() as int)
    } else {
        Seq::empty()
    }
}

/// What a line says: its address and its bytes, or why it is malformed.
pub open spec fn parse_line(line: Seq<u8>) -> Result<(u16, Seq<u8>), FormatError> {
    if line.len() < 5 || line[4] != 0x3a {
        Err(FormatError::MissingColon)
    } else {
        match line_address(line) {
            None => Err(FormatError::BadAddress),
            Some(a) => match line_bytes(line_rest(line)) {
                None => Err(FormatError::BadByte),
                Some(b) => Ok((a, b)),
            },
        }
    }
}

/// `image` with `bytes` written from address `at` on; the image grows with
/// zeros as far as needed.
pub open spec fn placed(image: Seq<u8>, at: int, bytes: Seq<u8>) -> Seq<u8> {
    let end = if bytes.len() == 0 || at + bytes.len() <= image.len() {
        image.len() as int
    } else {
        at + bytes.len()
    };
    Seq::new(
        end as nat,
        |i: int|
            if at <= i < at + bytes.len() {
                bytes[i - at]
            } else if i < image.len() {
                image[i]
            } else {
                0u8
            },
    )
}

/// A line never holds more bytes than characters.
proof fn lemma_line_bytes_len(s: Seq<u8>)
    ensures
        line_bytes(s) is Some ==> line_bytes(s)->0.len() <= s.len(),
    decreases s.len(),
{
    if s.len() > 0 {
        lemma_line_bytes_len(s.drop_first());
        lemma_line_bytes_len(s.subrange(1, s.len() as int));
        if s.len() >= 2 {
            lemma_line_bytes_len(s.subrange(2, s.len() as int));
        }
    }
}

/// The value of the hexadecimal digit `c`, if it is one.
pub fn hex_value(c: u8) -> (r: Option<u8>)
    ensures
        r == hex_digit(c),
{
    if 0x30 <= c && c <= 0x39 {
        Some(c - 0x30)
    } else if 0x61 <= c && c <= 0x66 {
        Some(c - 0x61 + 10)
    } else if 0x41 <= c && c <= 0x46 {
        Some(c - 0x41 + 10)
    } else {
        None
    }
}

/// Reads the bytes of `s` (see [`line_bytes`]).
fn read_bytes(s: &[u8]) -> (r: Option<Vec<u8>>)
    ensures
        match line_bytes(s@) {
            Some(b) => r is Some && r->0@ == b,
            None => r is None,
        },
{
    let mut out: Vec<u8> = Vec::new();
    let mut i: usize = 0;
    assert(s@.subrange(0, s@.len() as int) =~= s@);
    while i < s.len()
        invariant
            0 <= i <= s@.len(),
            line_bytes(s@) == match line_bytes(s@.subrange(i as int, s@.len() as int)) {
                Some(r) => Some(out@ + r),
                None => None::<Seq<u8>>,
            },
        decreases s.len() - i,
    {
        let ghost t = s@.subrange(i as int, s@.len() as int);
        let c = s[i];
        if c == 0x20 {
            assert(t.drop_first() =~= s@.subrange(i + 1, s@.len() as int));
            i = i + 1;
        } else {
            let d0 = hex_value(c);
            if d0.is_none() {
                return None;
            }
            let v0 = d0.unwrap();
            if i + 1 == s.len() || s[i + 1] == 0x20 {
                assert(t.subrange(1, t.len() as int) =~= s@.subrange(i + 1, s@.len() as int));
                proof {
                    let rest = s@.subrange(i + 1, s@.len() as int);
                    if let Some(r) = line_bytes(rest) {
                        assert(out@.push(v0) + r =~= out@ + (seq![v0] + r));
                    }
                }
                out.push(v0);
                i = i + 1;
            } else {
                let d1 = hex_value(s[i + 1]);
                if d1.is_none() {
                    return None;
                }
                let v1 = d1.unwrap();
                if i + 2 < s.len() && s[i + 2] != 0x20 {
                    return None;
                }
                let v = v0 * 16 + v1;
                assert(t.subrange(2, t.len() as int) =~= s@.subrange(i + 2, s@.len() as int));
                proof {
                    let rest = s@.subrange(i + 2, s@.len() as int);
                    if let Some(r) = line_bytes(rest) {
                        assert(out@.push(v) + r =~= out@ + (seq![v] + r));
                    }
                }
                out.push(v);
                i = i + 2;
            }
        }
    }
    assert(s@.subrange(i as int, s@.len() as int) =~= Seq::<u8>::empty());
    assert(out@ + Seq::<u8>::empty() =~= out@);
    Some(out)
}

/// Writes `bytes` into `image` from address `at` on, growing the image with
/// zeros as far as needed.
pub fn place(image: &mut Vec<u8>, at: usize, bytes: &[u8])
    requires
        at + bytes@.len() <= usize::MAX,
    ensures
        final(image)@ == placed(old(image)@, at as int, bytes@),
{
    let ghost img0 = image@;
    let end = if bytes.len() == 0 || at + bytes.len() <= image.len() {
        image.len()
    } else {
        at + bytes.len()
    };
    while image.len() < end
        invariant
            img0.len() <= image@.len() <= end,
            end == placed(img0, at as int, bytes@).len(),
            forall|i: int| 0 <= i < img0.len() ==> #[trigger] image@[i] == img0[i],
            forall|i: int| img0.len() <= i < image@.len() ==> #[trigger] image@[i] == 0u8,
        decreases end - image.len(),
    {
        image.push(0);
    }
    let mut k: usize = 0;
    while k < bytes.len()
        invariant
            0 <= k <= bytes@.len(),
            at + bytes@.len() <= usize::MAX,
            image@.len() == end,
            end == placed(img0, at as int, bytes@).len(),
            bytes@.len() > 0 ==> at + bytes@.len() <= end,
            forall|i: int|
                0 <= i < end ==> #[trigger] image@[i] == if at <= i < at + k {
                    bytes@[i - at]
                } else if i < img0.len() {
                    img0[i]
                } else {
                    0u8
                },
        decreases bytes.len() - k,
    {
        image.set(at + k, bytes[k]);
        k = k + 1;
    }
    assert(image@ =~= placed(img0, at as int, bytes@));
}

/// Reads one hex-dump line and writes its bytes into `image` (see
/// [`parse_line`] and [`placed`]). A malformed line leaves `image` as it
/// was.
pub fn load_line(line: &[u8], image: &mut Vec<u8>) -> (r: Result<(), FormatError>)
    requires
        line@.len() + 0x10000 <= usize::MAX,
    ensures
        match parse_line(line@) {
            Err(e) => r == Err::<(), FormatError>(e) && final(image)@ == old(image)@,
            Ok((a, b)) => r is Ok && final(image)@ == placed(old(image)@, a as int, b),
        },
{
    if line.len() < 5 || line[4] != 0x3a {
        return Err(FormatError::MissingColon);
    }
    let d0 = hex_value(line[0]);
    let d1 = hex_value(line[1]);
    let d2 = hex_value(line[2]);
    let d3 = hex_value(line[3]);
    if d0.is_none() || d1.is_none() || d2.is_none() || d3.is_none() {
        return Err(FormatError::BadAddress);
    }
    let addr: u16 = d0.unwrap() as u16 * 4096 + d1.unwrap() as u16 * 256 + d2.unwrap() as u16 * 16
        + d3.unwrap() as u16;
    let rest: &[u8] = if line.len() > 6 {
        slice_from(line, 6)
    } else {
        &[]
    };
    assert(rest@ == line_rest(line@));
    match read_bytes(rest) {
        None => Err(FormatError::BadByte),
        Some(b) => {
            proof {
                lemma_line_bytes_len(rest@);
            }
            place(image, addr as usize, b.as_slice());
            Ok(())
        },
    }
}

/// The part of `s` from index `from` on.
fn slice_from(s: &[u8], from: usize) -> (r: &[u8])
    requires
        from <= s@.len(),
    ensures
        r@ == s@.subrange(from as int, s@.len() as int),
{
    vstd::slice::slice_subrange(s, from, s.len())
}

/// The lower-case hexadecimal digit for `n` (0 to 15).
pub open spec fn hex_char(n: int) -> u8 {
    if n < 10 {
        (0x30 + n) as u8
    } else {
        (0x61 + n - 10) as u8
    }
}

/// A byte as two lower-case hexadecimal digits.
pub open spec fn hex_byte(b: u8) -> Seq<u8> {
    seq![hex_char(b as int / 16), hex_char(b as int % 16)]
}

/// The bytes as two-digit hexadecimal numbers separated by blanks.
pub open spec fn byte_list(bytes: Seq<u8>) -> Seq<u8>
    decreases bytes.len(),
{
    if bytes.len() == 0 {
        Seq::empty()
    } else if bytes.len() == 1 {
        hex_byte(bytes[0])
    } else {
        byte_list(bytes.drop_last()) + seq![0x20u8] + hex_byte(bytes.last())
    }
}

/// The dump line `XXXX: bb bb ...` for `chunk` stored at `addr`.
pub open spec fn dump_line(addr: u16, chunk: Seq<u8>) -> Seq<u8> {
    hex_byte((addr / 256) as u8) + hex_byte((addr % 256) as u8) + seq![0x3au8, 0x20u8] + byte_list(
        chunk,
    )
}

/// Whether every byte of `chunk` is zero.
pub open spec fn is_blank(chunk: Seq<u8>) -> bool {
    forall|i: int| 0 <= i < chunk.len() ==> chunk[i] == 0
}

/// Bytes in one dump line.
pub const CHUNK: usize = 16;

/// The dump of `data` from index `start` on: one line, ended by a line
/// feed, for each chunk of 16 bytes that is not all zero.
pub open spec fn dump_text(data: Seq<u8>, start: int) -> Seq<u8>
    decreases data.len() - start,
{
    if start < 0 || start >= data.len() {
        Seq::empty()
    } else {
        let end = if start + CHUNK <= data.len() {
            start + CHUNK
        } else {
            data.len() as int
        };
        let chunk = data.subrange(start, end);
        let line = if is_blank(chunk) {
            Seq::empty()
        } else {
            dump_line(start as u16, chunk) + seq![0x0au8]
        };
        if end == data.len() {
            line
        } else {
            line + dump_text(data, start + CHUNK)
        }
    }
}

/// Appends the two hexadecimal digits of `b`.
fn push_hex(out: &mut Vec<u8>, b: u8)
    ensures
        final(out)@ == old(out)@ + hex_byte(b),
{
    let hi = b / 16;
    let lo = b % 16;
    out.push(if hi < 10 {
        0x30 + hi
    } else {
        0x61 + hi - 10
    });
    out.push(if lo < 10 {
        0x30 + lo
    } else {
        0x61 + lo - 10
    });
    assert(out@ =~= old(out)@ + hex_byte(b));
}

/// The dump line `XXXX: bb bb ...` for `chunk` stored at `addr`.
pub fn format_line(addr: u16, chunk: &[u8]) -> (r: Vec<u8>)
    ensures
        r@ == dump_line(addr, chunk@),
{
    let mut out: Vec<u8> = Vec::new();
    push_hex(&mut out, (addr / 256) as u8);
    push_hex(&mut out, (addr % 256) as u8);
    out.push(0x3a);
    out.push(0x20);
    let ghost head = out@;
    let mut i: usize = 0;
    while i < chunk.len()
        invariant
            0 <= i <= chunk@.len(),
            out@ == head + byte_list(chunk@.subrange(0, i as int)),
        decreases chunk.len() - i,
    {
        let ghost before = out@;
        if i > 0 {
            out.push(0x20);
        }
        push_hex(&mut out, chunk[i]);
        proof {
            let p = chunk@.subrange(0, i + 1);
            assert(p.drop_last() =~= chunk@.subrange(0, i as int));
            if i == 0 {
                assert(byte_list(chunk@.subrange(0, 0)) =~= Seq::<u8>::empty());
                assert(out@ =~= head + byte_list(p));
            } else {
                assert(out@ =~= head + byte_list(p));
            }
        }
        i = i + 1;
    }
    assert(chunk@.subrange(0, chunk@.len() as int) =~= chunk@);
    assert(out@ =~= dump_line(addr, chunk@));
    out
}

/// The dump of `data`, which holds at most 64 KiB: one line, ended by a line
/// feed, for each chunk of 16 bytes that is not all zero.
pub fn dump(data: &[u8]) -> (r: Vec<u8>)
    requires
        data@.len() <= 0x10000,
    ensures
        r@ == dump_text(data@, 0),
{
    let mut out: Vec<u8> = Vec::new();
    let mut start: usize = 0;
    while start < data.len()
        invariant
            data@.len() <= 0x10000,
            start <= data@.len() + CHUNK,
            start % CHUNK == 0,
            dump_text(data@, 0) == out@ + dump_text(data@, start as int),
        decreases data.len() + CHUNK - start,
    {
        let end = if start + CHUNK <= data.len() {
            start + CHUNK
        } else {
            data.len()
        };
        let chunk = slice_range(data, start, end);
        let blank = chunk_is_blank(chunk);
        let ghost before = out@;
        if !blank {
            let line = format_line(start as u16, chunk);
            let mut k: usize = 0;
            while k < line.len()
                invariant
                    0 <= k <= line@.len(),
                    out@ == before + line@.subrange(0, k as int),
                decreases line.len() - k,
            {
                out.push(line[k]);
                assert(line@.subrange(0, k + 1) =~= line@.subrange(0, k as int).push(line@[k as int]));
                k = k + 1;
            }
            assert(line@.subrange(0, line@.len() as int) =~= line@);
            out.push(0x0a);
        }
        proof {
            let line = if is_blank(chunk@) {
                Seq::empty()
            } else {
                dump_line(start as u16, chunk@) + seq![0x0au8]
            };
            assert(out@ =~= before + line);
            if end == data.len() {
                assert(dump_text(data@, start + CHUNK) =~= Seq::<u8>::empty());
            }
            assert(dump_text(data@, start as int) == line + dump_text(data@, start + CHUNK));
            assert(out@ + dump_text(data@, start + CHUNK) =~= before + dump_text(data@, start as int));
        }
        start = start + CHUNK;
    }
    assert(dump_text(data@, start as int) =~= Seq::<u8>::empty());
    assert(out@ + Seq::<u8>::empty() =~= out@);
    out
}

/// The part of `s` from index `from` up to `to`.
fn slice_range(s: &[u8], from: usize, to: usize) -> (r: &[u8])
    requires
        from <= to <= s@.len(),
    ensures
        r@ == s@.subrange(from as int, to as int),
{
    vstd::slice::slice_subrange(s, from, to)
}

/// Whether every byte of `chunk` is zero.
fn chunk_is_blank(chunk: &[u8]) -> (r: bool)
    ensures
        r == is_blank(chunk@),
{
    let mut blank = true;
    let mut j: usize = 0;
    while j < chunk.len()
        invariant
            0 <= j <= chunk@.len(),
            blank == (forall|i: int| 0 <= i < j ==> chunk@[i] == 0),
        decreases chunk.len() - j,
    {
        if chunk[j] != 0 {
            blank = false;
        }
        j = j + 1;
    }
    blank
}

/// The memory monitor's layout from index `start` of `mem` on: each chunk
/// of 16 bytes that is not all zero gets the next screen row, from `row`
/// on, as a pair (row, address of the chunk), while rows stay below
/// `height`.
pub open spec fn monitor_layout(mem: Seq<u8>, start: int, row: int, height: int) -> Seq<(u16, u16)>
    decreases mem.len() - start,
{
    if start < 0 || start >= mem.len() || row >= height {
        Seq::empty()
    } else {
        let end = if start + CHUNK <= mem.len() {
            start + CHUNK
        } else {
            mem.len() as int
        };
        let blank = is_blank(mem.subrange(start, end));
        let rest = if end == mem.len() {
            Seq::empty()
        } else {
            monitor_layout(
                mem,
                start + CHUNK,
                if blank {
                    row
                } else {
                    row + 1
                },
                height,
            )
        };
        if blank {
            rest
        } else {
            seq![(row as u16, start as u16)] + rest
        }
    }
}

/// Which chunks of `mem` the memory monitor shows, and on which screen
/// rows: the non-blank 16-byte chunks in address order get rows `first`,
/// `first + 1`, ... as long as the row is below `height`.
pub fn monitor_rows(mem: &[u8], first: u16, height: u16) -> (r: Vec<(u16, u16)>)
    requires
        mem@.len() <= 0x10000,
    ensures
        r@ == monitor_layout(mem@, 0, first as int, height as int),
{
    let mut out: Vec<(u16, u16)> = Vec::new();
    let mut start: usize = 0;
    let mut row: u16 = first;
    assert(out@ + monitor_layout(mem@, 0, first as int, height as int) =~= monitor_layout(
        mem@,
        0,
        first as int,
        height as int,
    ));
    while start < mem.len() && row < height
        invariant
            mem@.len() <= 0x10000,
            start <= mem@.len() + CHUNK,
            monitor_layout(mem@, 0, first as int, height as int) == out@ + monitor_layout(
                mem@,
                start as int,
                row as int,
                height as int,
            ),
        decreases mem.len() + CHUNK - start,
    {
        let end = if start + CHUNK <= mem.len() {
            start + CHUNK
        } else {
            mem.len()
        };
        let blank = chunk_is_blank(slice_range(mem, start, end));
        let ghost before = out@;
        let next_row = if blank {
            row
        } else {
            out.push((row, start as u16));
            row + 1
        };
        proof {
            if end == mem.len() {
                assert(monitor_layout(mem@, start + CHUNK, next_row as int, height as int)
                    =~= Seq::<(u16, u16)>::empty());
            }
            let rest = monitor_layout(mem@, start + CHUNK, next_row as int, height as int);
            if !blank {
                assert(before.push((row, start as u16)) + rest =~= before + (seq![
                    (row, start as u16),
                ] + rest));
            }
        }
        start = start + CHUNK;
        row = next_row;
    }
    assert(monitor_layout(mem@, start as int, row as int, height as int) =~= Seq::<
        (u16, u16),
    >::empty());
    assert(out@ + Seq::<(u16, u16)>::empty() =~= out@);
    out
}

} // verus!
