use vstd::prelude::*;
use vstd::string::StringExecFns;
use vstd::utf8::encode_utf8;

use crate::http_parse::opt_view;

verus! {

/// The MD5 digest of a byte string.
pub uninterp spec fn md5_of(data: Seq<u8>) -> Seq<u8>;

/// Relies on `md5::compute`: the digest of the bytes, sixteen of them.
#[verifier::external_body]
fn md5_digest(data: &[u8]) -> (r: [u8; 16])
    ensures
        r@ == md5_of(data@),
{
    md5::compute(data).0
}

/// The lower-case hexadecimal digits.
pub open spec fn hex_digits() -> Seq<char> {
    seq!['0', '1', '2', '3', '4', '5', '6', '7', '8', '9', 'a', 'b', 'c', 'd', 'e', 'f']
}

/// Each byte as two lower-case hexadecimal digits, high half first.
pub open spec fn hex_of(bytes: Seq<u8>) -> Seq<char>
    decreases bytes.len(),
{
    if bytes.len() == 0 {
        Seq::empty()
    } else {
        let b = bytes.last();
        hex_of(bytes.drop_last()) + seq![hex_digits()[b as int / 16], hex_digits()[b as int % 16]]
    }
}

/// The name a download takes when the caller gives none: the hexadecimal
/// MD5 digest of the URL's text as given.
pub open spec fn fingerprint(url: Seq<char>) -> Seq<char> {
    hex_of(md5_of(encode_utf8(url)))
}

/// The name a download is written under.
pub open spec fn download_name_of(url: Seq<char>, name: Option<Seq<char>>) -> Seq<char> {
    match name {
        Some(n) => n,
        None => fingerprint(url),
    }
}

fn hex_digit(n: u8) -> (r: &'static str)
    requires
        n < 16,
    ensures
        r@ == seq![hex_digits()[n as int]],
{
    match n {
        0 => {
            proof {
                reveal_strlit("0");
            }
            "0"
        },
        1 => {
            proof {
                reveal_strlit("1");
            }
            "1"
        },
        2 => {
            proof {
                reveal_strlit("2");
            }
            "2"
        },
        3 => {
            proof {
                reveal_strlit("3");
            }
            "3"
        },
        4 => {
            proof {
                reveal_strlit("4");
            }
            "4"
        },
        5 => {
            proof {
                reveal_strlit("5");
            }
            "5"
        },
        6 => {
            proof {
                reveal_strlit("6");
            }
            "6"
        },
        7 => {
            proof {
                reveal_strlit("7");
            }
            "7"
        },
        8 => {
            proof {
                reveal_strlit("8");
            }
            "8"
        },
        9 => {
            proof {
                reveal_strlit("9");
            }
            "9"
        },
        10 => {
            proof {
                reveal_strlit("a");
            }
            "a"
        },
        11 => {
            proof {
                reveal_strlit("b");
            }
            "b"
        },
        12 => {
            proof {
                reveal_strlit("c");
            }
            "c"
        },
        13 => {
            proof {
                reveal_strlit("d");
            }
            "d"
        },
        14 => {
            proof {
                reveal_strlit("e");
            }
            "e"
        },
        _ => {
            proof {
                reveal_strlit("f");
            }
            "f"
        },
    }
}

/// Lower-case hexadecimal text of a byte string.
pub fn to_hex(bytes: &[u8]) -> (r: String)
    ensures
        r@ == hex_of(bytes@),
{
    let mut out = String::new();
    let mut i: usize = 0;
    while i < bytes.len()
        invariant
            0 <= i <= bytes@.len(),
            out@ == hex_of(bytes@.subrange(0, i as int)),
        decreases bytes@.len() - i,
    {
        let b = bytes[i];
        out.append(hex_digit(b / 16));
        out.append(hex_digit(b % 16));
        let ghost sub = bytes@.subrange(0, i as int + 1);
        assert(sub.drop_last() =~= bytes@.subrange(0, i as int));
        assert(out@ =~= hex_of(sub));
        i = i + 1;
    }
    assert(bytes@.subrange(0, i as int) =~= bytes@);
    out
}

/// Two digits for each byte.
pub proof fn lemma_hex_len(bytes: Seq<u8>)
    ensures
        hex_of(bytes).len() == 2 * bytes.len(),
    decreases bytes.len(),
{
    if bytes.len() > 0 {
        lemma_hex_len(bytes.drop_last());
    }
}

/// The fingerprint name of a URL: 32 hexadecimal digits.
pub fn fingerprint_name(url: &str) -> (r: String)
    ensures
        r@ == fingerprint(url@),
        r@.len() == 32,
{
    let d = md5_digest(url.as_bytes());
    assert(d@.len() == 16);
    proof {
        lemma_hex_len(d@);
    }
    to_hex(&d)
}

/// The name a download is written under: the caller's, else the URL's
/// fingerprint.
pub fn download_name(url: &str, name: Option<String>) -> (r: String)
    ensures
        r@ == download_name_of(url@, opt_view(name)),
        name is None ==> r@.len() == 32,
{
    match name {
        Some(n) => n,
        None => fingerprint_name(url),
    }
}

/// Naming is deterministic and depends on the URL alone: two downloads of
/// the same URL without a name are written under the same name, whoever
/// asks and whenever.
pub proof fn lemma_default_name_stable(u1: Seq<char>, u2: Seq<char>)
    requires
        u1 == u2,
    ensures
        download_name_of(u1, None) == download_name_of(u2, None),
        download_name_of(u1, None) == fingerprint(u1),
{
}

} // verus!
