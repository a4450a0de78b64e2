//! The identity of a local installation: sixteen random bytes, generated once
//! and kept on the machine, written in the usual hyphenated lower-case UUID
//! form (`67e55044-10b1-426f-9247-bb680e5fe0c8`).

use vstd::prelude::*;

verus! {

/// The lower-case hexadecimal digit of a nibble (`0..=9`, then `a..=f`).
pub open spec fn hex_digit(nibble: int) -> char {
    if nibble < 10 {
        (nibble + 48) as char
    } else {
        (nibble + 87) as char
    }
}

/// Two lower-case hex digits per byte, high nibble first.
pub open spec fn hex_text(bytes: Seq<u8>) -> Seq<char> {
    Seq::new(
        2 * bytes.len(),
        |k: int|
            if k % 2 == 0 {
                hex_digit(bytes[k / 2] as int / 16)
            } else {
                hex_digit(bytes[k / 2] as int % 16)
            },
    )
}

/// The hyphenated form of sixteen bytes: hex groups of 4, 2, 2, 2 and 6 bytes
/// joined by `-`.
pub open spec fn hyphenated_text(bytes: Seq<u8>) -> Seq<char> {
    hex_text(bytes.subrange(0, 4)) + seq!['-'] + hex_text(bytes.subrange(4, 6)) + seq!['-']
        + hex_text(bytes.subrange(6, 8)) + seq!['-'] + hex_text(bytes.subrange(8, 10))
        + seq!['-'] + hex_text(bytes.subrange(10, 16))
}

/// Distinct nibbles have distinct digits.
pub proof fn lemma_hex_digit_injective(a: int, b: int)
    requires
        0 <= a < 16,
        0 <= b < 16,
        hex_digit(a) == hex_digit(b),
    ensures
        a == b,
{
}

/// Equal hex texts of equally long byte sequences come from equal bytes.
pub proof fn lemma_hex_text_injective(a: Seq<u8>, b: Seq<u8>)
    requires
        a.len() == b.len(),
        hex_text(a) == hex_text(b),
    ensures
        a == b,
{
    assert forall|i: int| 0 <= i < a.len() implies a[i] == b[i] by {
        assert((2 * i) / 2 == i && (2 * i) % 2 == 0);
        assert((2 * i + 1) / 2 == i && (2 * i + 1) % 2 == 1);
        assert(hex_text(a)[2 * i] == hex_digit(a[i] as int / 16));
        assert(hex_text(b)[2 * i] == hex_digit(b[i] as int / 16));
        assert(hex_text(a)[2 * i + 1] == hex_digit(a[i] as int % 16));
        assert(hex_text(b)[2 * i + 1] == hex_digit(b[i] as int % 16));
        lemma_hex_digit_injective(a[i] as int / 16, b[i] as int / 16);
        lemma_hex_digit_injective(a[i] as int % 16, b[i] as int % 16);
    }
    assert(a =~= b);
}

/// The hyphenated form of sixteen bytes determines the bytes.
pub proof fn lemma_hyphenated_text_injective(a: Seq<u8>, b: Seq<u8>)
    requires
        a.len() == 16,
        b.len() == 16,
        hyphenated_text(a) == hyphenated_text(b),
    ensures
        a == b,
{
    let ha = hyphenated_text(a);
    let hb = hyphenated_text(b);
    assert(ha.subrange(0, 8) =~= hex_text(a.subrange(0, 4)));
    assert(hb.subrange(0, 8) =~= hex_text(b.subrange(0, 4)));
    assert(ha.subrange(9, 13) =~= hex_text(a.subrange(4, 6)));
    assert(hb.subrange(9, 13) =~= hex_text(b.subrange(4, 6)));
    assert(ha.subrange(14, 18) =~= hex_text(a.subrange(6, 8)));
    assert(hb.subrange(14, 18) =~= hex_text(b.subrange(6, 8)));
    assert(ha.subrange(19, 23) =~= hex_text(a.subrange(8, 10)));
    assert(hb.subrange(19, 23) =~= hex_text(b.subrange(8, 10)));
    assert(ha.subrange(24, 36) =~= hex_text(a.subrange(10, 16)));
    assert(hb.subrange(24, 36) =~= hex_text(b.subrange(10, 16)));
    lemma_hex_text_injective(a.subrange(0, 4), b.subrange(0, 4));
    lemma_hex_text_injective(a.subrange(4, 6), b.subrange(4, 6));
    lemma_hex_text_injective(a.subrange(6, 8), b.subrange(6, 8));
    lemma_hex_text_injective(a.subrange(8, 10), b.subrange(8, 10));
    lemma_hex_text_injective(a.subrange(10, 16), b.subrange(10, 16));
    assert forall|i: int| 0 <= i < 16 implies a[i] == b[i] by {
        if i < 4 {
            assert(a[i] == a.subrange(0, 4)[i]);
            assert(b[i] == b.subrange(0, 4)[i]);
        } else if i < 6 {
            assert(a[i] == a.subrange(4, 6)[i - 4]);
            assert(b[i] == b.subrange(4, 6)[i - 4]);
        } else if i < 8 {
            assert(a[i] == a.subrange(6, 8)[i - 6]);
            assert(b[i] == b.subrange(6, 8)[i - 6]);
        } else if i < 10 {
            assert(a[i] == a.subrange(8, 10)[i - 8]);
            assert(b[i] == b.subrange(8, 10)[i - 8]);
        } else {
            assert(a[i] == a.subrange(10, 16)[i - 10]);
            assert(b[i] == b.subrange(10, 16)[i - 10]);
        }
    }
    assert(a =~= b);
}

/// The digits are the usual lower-case hexadecimal ones, `0123456789abcdef`.
pub proof fn lemma_hex_digit_table()
    ensures
        hex_digit(0) == '0',
        hex_digit(1) == '1',
        hex_digit(2) == '2',
        hex_digit(3) == '3',
        hex_digit(4) == '4',
        hex_digit(5) == '5',
        hex_digit(6) == '6',
        hex_digit(7) == '7',
        hex_digit(8) == '8',
        hex_digit(9) == '9',
        hex_digit(10) == 'a',
        hex_digit(11) == 'b',
        hex_digit(12) == 'c',
        hex_digit(13) == 'd',
        hex_digit(14) == 'e',
        hex_digit(15) == 'f',
{
}

/// Where the two digits of byte `k` stand in the hyphenated text: two
/// characters per byte, shifted by the hyphens before it (after bytes 4, 6, 8
/// and 10).
pub open spec fn hyphenated_position(k: int) -> int {
    2 * k + if k < 4 {
        0int
    } else if k < 6 {
        1int
    } else if k < 8 {
        2int
    } else if k < 10 {
        3int
    } else {
        4int
    }
}

/// The hyphenated text of sixteen bytes is 36 characters long, has hyphens at
/// 8, 13, 18 and 23, and writes each byte, in order, as its high then its low
/// nibble's digit.
pub proof fn lemma_hyphenated_text_layout(bytes: Seq<u8>)
    requires
        bytes.len() == 16,
    ensures
        hyphenated_text(bytes).len() == 36,
        hyphenated_text(bytes)[8] == '-',
        hyphenated_text(bytes)[13] == '-',
        hyphenated_text(bytes)[18] == '-',
        hyphenated_text(bytes)[23] == '-',
        forall|k: int|
            #![trigger bytes[k]]
            0 <= k < 16 ==> hyphenated_text(bytes)[hyphenated_position(k)] == hex_digit(
                bytes[k] as int / 16,
            ) && hyphenated_text(bytes)[hyphenated_position(k) + 1] == hex_digit(
                bytes[k] as int % 16,
            ),
{
    let t = hyphenated_text(bytes);
    let p0 = hex_text(bytes.subrange(0, 4));
    let p1 = hex_text(bytes.subrange(4, 6));
    let p2 = hex_text(bytes.subrange(6, 8));
    let p3 = hex_text(bytes.subrange(8, 10));
    let p4 = hex_text(bytes.subrange(10, 16));
    assert(t.len() == 36);
    assert(t.subrange(0, 8) =~= p0);
    assert(t.subrange(9, 13) =~= p1);
    assert(t.subrange(14, 18) =~= p2);
    assert(t.subrange(19, 23) =~= p3);
    assert(t.subrange(24, 36) =~= p4);
    assert forall|k: int|
        #![trigger bytes[k]]
        0 <= k < 16 implies t[hyphenated_position(k)] == hex_digit(bytes[k] as int / 16) && t[
            hyphenated_position(k) + 1] == hex_digit(bytes[k] as int % 16) by {
        let (start, off, piece) = if k < 4 {
            (0int, 0int, p0)
        } else if k < 6 {
            (4int, 9int, p1)
        } else if k < 8 {
            (6int, 14int, p2)
        } else if k < 10 {
            (8int, 19int, p3)
        } else {
            (10int, 24int, p4)
        };
        let r = k - start;
        let sub = bytes.subrange(start, if k < 4 {
            4int
        } else if k < 6 {
            6int
        } else if k < 8 {
            8int
        } else if k < 10 {
            10int
        } else {
            16int
        });
        assert(piece == hex_text(sub));
        assert(sub[r] == bytes[k]);
        assert(hyphenated_position(k) == off + 2 * r);
        assert((2 * r) / 2 == r && (2 * r) % 2 == 0);
        assert((2 * r + 1) / 2 == r && (2 * r + 1) % 2 == 1);
        assert(piece[2 * r] == hex_digit(sub[r] as int / 16));
        assert(piece[2 * r + 1] == hex_digit(sub[r] as int % 16));
        assert(t[off + 2 * r] == piece[2 * r]);
        assert(t[off + 2 * r + 1] == piece[2 * r + 1]);
    }
}

/// The sixteen bytes that identify one local installation.
pub struct InstallationId {
    bytes: [u8; 16],
}

impl View for InstallationId {
    type V = Seq<u8>;

    closed spec fn view(&self) -> Seq<u8> {
        self.bytes@
    }
}

/// The hyphenated lower-case text of sixteen bytes, through the `uuid` crate:
/// `Uuid::from_bytes` then `Hyphenated`'s `Display`. The claim is that the
/// text is the 8-4-4-4-12 grouping of lower-case hex digits of the bytes in
/// order, as the crate documents and its `format_hyphenated` writes.
#[verifier::external_body]
fn uuid_hyphenated_lower(bytes: [u8; 16]) -> (text: String)
    ensures
        text@ == hyphenated_text(bytes@),
{
    uuid::Uuid::from_bytes(bytes).hyphenated().to_string()
}

impl InstallationId {
    pub fn from_bytes(bytes: [u8; 16]) -> (id: Self)
        ensures
            id@ == bytes@,
            id@.len() == 16,
    {
        InstallationId { bytes }
    }

    pub fn as_bytes(&self) -> (bytes: [u8; 16])
        ensures
            bytes@ == self@,
    {
        self.bytes
    }

    /// The identity written as a hyphenated lower-case UUID.
    pub fn hyphenated(&self) -> (text: String)
        ensures
            text@ == hyphenated_text(self@),
            self@.len() == 16,
    {
        uuid_hyphenated_lower(self.bytes)
    }
}

} // verus!
