//! Deterministic identifier anonymization for showcase mode.
//!
//! When the process-wide showcase flag is off, every function here is the
//! identity. When it is on, usernames become the constant `demo_user`,
//! application keys become a constant demo key, and job identifiers become
//! stable pseudonyms: a 64-bit rolling hash of the identifier's UTF-8 bytes
//! (`h = h * 31 + byte`, wrapping, starting from 0) rendered as exactly 12
//! base-36 digits (`0-9A-Z`, least significant first) behind the literal
//! prefix `NGBW-JOB-`. The same input always yields the same pseudonym, in
//! this run and in any other: the hash has no seed.

use vstd::prelude::*;
use vstd::string::StringExecFns;
use crate::segments::join_strings;
use crate::segments::join_with;
use crate::segments::split_on;
use crate::segments::split_str;

verus! {

/// The constant username shown in showcase mode.
pub open spec fn demo_user() -> Seq<char> {
    "demo_user"@
}

/// The constant application key shown in showcase mode.
pub open spec fn demo_app_key() -> Seq<char> {
    "DEMO-APP-KEY-XXXXXXXXXXXXXXXXXXXXXXXXXXXXXXXX"@
}

/// The literal prefix of every job-identifier pseudonym.
pub open spec fn job_prefix() -> Seq<char> {
    "NGBW-JOB-"@
}

/// One step of the rolling hash: multiply by 31 and add the byte, both
/// wrapping at 64 bits.
pub open spec fn hash_step(h: u64, b: u8) -> u64 {
    vstd::wrapping::u64_specs::wrapping_add(
        vstd::wrapping::u64_specs::wrapping_mul(h, 31),
        b as u64,
    )
}

/// The rolling hash of a byte sequence, starting from 0.
pub open spec fn job_hash(bytes: Seq<u8>) -> u64
    decreases bytes.len(),
{
    if bytes.len() == 0 {
        0u64
    } else {
        hash_step(job_hash(bytes.drop_last()), bytes.last())
    }
}

/// The base-36 digit `d` as a character: `0-9` then `A-Z`.
pub open spec fn base36_char(d: u64) -> char
    recommends
        d < 36,
{
    if d < 10 {
        ((48 + d) as u8) as char
    } else {
        ((55 + d) as u8) as char
    }
}

/// `n` base-36 digits of `h`, least significant first.
pub open spec fn base36_digits(h: u64, n: nat) -> Seq<char>
    decreases n,
{
    if n == 0 {
        Seq::<char>::empty()
    } else {
        seq![base36_char(h % 36)] + base36_digits(h / 36, (n - 1) as nat)
    }
}

/// The pseudonym of a job identifier: the fixed prefix followed by exactly
/// 12 base-36 digits of the rolling hash of the identifier's UTF-8 bytes.
pub open spec fn spec_anonymize_job_id(id: Seq<char>) -> Seq<char> {
    job_prefix() + base36_digits(job_hash(vstd::utf8::encode_utf8(id)), 12)
}

/// The anonymized form of a URL: with fewer than two `/`-separated segments
/// the URL is unchanged; otherwise the second-to-last segment becomes
/// `demo_user` and the last becomes the pseudonym of its former value.
pub open spec fn spec_anonymize_url(url: Seq<char>) -> Seq<char> {
    let parts = split_on(url, '/');
    if parts.len() < 2 {
        url
    } else {
        join_with(
            parts.update(parts.len() - 2, demo_user()).update(
                parts.len() - 1,
                spec_anonymize_job_id(parts.last()),
            ),
            '/',
        )
    }
}

/// True of exactly the characters a pseudonym suffix is made of.
pub open spec fn is_base36_char(c: char) -> bool {
    exists|d: u64| d < 36 && c == base36_char(d)
}

fn hash_of_bytes(bytes: &[u8]) -> (h: u64)
    ensures
        h == job_hash(bytes@),
{
    let mut h: u64 = 0;
    let mut i: usize = 0;
    while i < bytes.len()
        invariant
            i <= bytes@.len(),
            h == job_hash(bytes@.take(i as int)),
        decreases bytes@.len() - i,
    {
        proof {
            assert(bytes@.take(i + 1).drop_last() =~= bytes@.take(i as int));
            assert(bytes@.take(i + 1).last() == bytes@[i as int]);
        }
        h = h.wrapping_mul(31).wrapping_add(bytes[i] as u64);
        i += 1;
    }
    proof {
        assert(bytes@.take(bytes@.len() as int) =~= bytes@);
    }
    h
}

fn base36_digit_str(d: u64) -> (r: &'static str)
    requires
        d < 36,
    ensures
        r@ == seq![base36_char(d)],
{
    let r: &'static str = match d {
        0 => "0",
        1 => "1",
        2 => "2",
        3 => "3",
        4 => "4",
        5 => "5",
        6 => "6",
        7 => "7",
        8 => "8",
        9 => "9",
        10 => "A",
        11 => "B",
        12 => "C",
        13 => "D",
        14 => "E",
        15 => "F",
        16 => "G",
        17 => "H",
        18 => "I",
        19 => "J",
        20 => "K",
        21 => "L",
        22 => "M",
        23 => "N",
        24 => "O",
        25 => "P",
        26 => "Q",
        27 => "R",
        28 => "S",
        29 => "T",
        30 => "U",
        31 => "V",
        32 => "W",
        33 => "X",
        34 => "Y",
        _ => "Z",
    };
    proof {
        reveal_strlit("0");
        reveal_strlit("1");
        reveal_strlit("2");
        reveal_strlit("3");
        reveal_strlit("4");
        reveal_strlit("5");
        reveal_strlit("6");
        reveal_strlit("7");
        reveal_strlit("8");
        reveal_strlit("9");
        reveal_strlit("A");
        reveal_strlit("B");
        reveal_strlit("C");
        reveal_strlit("D");
        reveal_strlit("E");
        reveal_strlit("F");
        reveal_strlit("G");
        reveal_strlit("H");
        reveal_strlit("I");
        reveal_strlit("J");
        reveal_strlit("K");
        reveal_strlit("L");
        reveal_strlit("M");
        reveal_strlit("N");
        reveal_strlit("O");
        reveal_strlit("P");
        reveal_strlit("Q");
        reveal_strlit("R");
        reveal_strlit("S");
        reveal_strlit("T");
        reveal_strlit("U");
        reveal_strlit("V");
        reveal_strlit("W");
        reveal_strlit("X");
        reveal_strlit("Y");
        reveal_strlit("Z");
        assert(r@ =~= seq![base36_char(d)]);
    }
    r
}

fn base36_suffix(h0: u64) -> (r: String)
    ensures
        r@ == base36_digits(h0, 12),
{
    let mut r = String::new();
    let mut h = h0;
    let mut k: usize = 0;
    while k < 12
        invariant
            k <= 12,
            r@ + base36_digits(h, (12 - k) as nat) == base36_digits(h0, 12),
        decreases 12 - k,
    {
        let d = h % 36;
        let piece = base36_digit_str(d);
        let ghost before = r@;
        r.append(piece);
        h = h / 36;
        proof {
            assert(before + (seq![base36_char(d)] + base36_digits(h, (12 - (k + 1)) as nat))
                =~= (before + seq![base36_char(d)]) + base36_digits(h, (12 - (k + 1)) as nat));
        }
        k += 1;
    }
    proof {
        assert(r@ + base36_digits(h, 0) =~= r@);
    }
    r
}

/// The showcase pseudonym of a job identifier.
fn pseudonym_of_job_id(id: &str) -> (r: String)
    ensures
        r@ == spec_anonymize_job_id(id@),
{
    let h = hash_of_bytes(id.as_bytes());
    let prefix = "NGBW-JOB-".to_owned();
    let suffix = base36_suffix(h);
    prefix.concat(suffix.as_str())
}

/// In showcase mode every username is shown as the constant `demo_user`;
/// otherwise the username is returned unchanged.
pub fn anonymize_username(username: &str, showcase: bool) -> (r: String)
    ensures
        showcase ==> r@ == demo_user(),
        !showcase ==> r@ == username@,
{
    if showcase {
        "demo_user".to_owned()
    } else {
        username.to_owned()
    }
}

/// In showcase mode a job identifier is replaced by its stable pseudonym:
/// `NGBW-JOB-` followed by 12 base-36 digits of the rolling hash of the
/// identifier; otherwise it is returned unchanged.
pub fn anonymize_job_id(job_id: &str, showcase: bool) -> (r: String)
    ensures
        showcase ==> r@ == spec_anonymize_job_id(job_id@),
        !showcase ==> r@ == job_id@,
{
    if showcase {
        pseudonym_of_job_id(job_id)
    } else {
        job_id.to_owned()
    }
}

/// In showcase mode the second-to-last `/`-separated segment of a URL (the
/// username) becomes `demo_user` and the last (the job identifier) becomes
/// its pseudonym; a URL with fewer than two segments, and any URL outside
/// showcase mode, is returned unchanged.
pub fn anonymize_url(url: &str, showcase: bool) -> (r: String)
    ensures
        showcase ==> r@ == spec_anonymize_url(url@),
        !showcase ==> r@ == url@,
{
    if !showcase {
        return url.to_owned();
    }
    let mut parts = split_str(url, '/');
    if parts.len() < 2 {
        return url.to_owned();
    }
    let last_index = parts.len() - 1;
    let pseudonym = pseudonym_of_job_id(parts[last_index].as_str());
    let ghost before = parts.deep_view();
    parts.set(last_index - 1, "demo_user".to_owned());
    parts.set(last_index, pseudonym);
    proof {
        assert(parts.deep_view() =~~= before.update(before.len() - 2, demo_user()).update(
            before.len() - 1,
            spec_anonymize_job_id(before.last()),
        ));
    }
    proof {
        reveal_strlit("/");
        assert("/"@.len() == 1 && "/"@[0] == '/');
    }
    join_strings(&parts, "/")
}

/// In showcase mode an application key is shown as the constant demo key;
/// otherwise it is returned unchanged.
pub fn anonymize_app_key(key: &str, showcase: bool) -> (r: String)
    ensures
        showcase ==> r@ == demo_app_key(),
        !showcase ==> r@ == key@,
{
    if showcase {
        "DEMO-APP-KEY-XXXXXXXXXXXXXXXXXXXXXXXXXXXXXXXX".to_owned()
    } else {
        key.to_owned()
    }
}

/// Anonymization is deterministic: the pseudonym depends on the identifier
/// alone, with no per-run seed, so equal identifiers always map to equal
/// pseudonyms, within one run and across runs.
pub proof fn lemma_job_id_pseudonym_deterministic(a: Seq<char>, b: Seq<char>)
    requires
        a == b,
    ensures
        spec_anonymize_job_id(a) == spec_anonymize_job_id(b),
{
}

proof fn lemma_base36_digits_shape(h: u64, n: nat)
    ensures
        base36_digits(h, n).len() == n,
        forall|i: int| 0 <= i < n ==> is_base36_char(#[trigger] base36_digits(h, n)[i]),
    decreases n,
{
    if n > 0 {
        lemma_base36_digits_shape(h / 36, (n - 1) as nat);
        let d = h % 36;
        assert(d < 36 && base36_digits(h, n)[0] == base36_char(d));
        assert(is_base36_char(base36_digits(h, n)[0]));
        assert forall|i: int| 1 <= i < n implies is_base36_char(
            #[trigger] base36_digits(h, n)[i],
        ) by {
            assert(base36_digits(h, n)[i] == base36_digits(h / 36, (n - 1) as nat)[i - 1]);
        }
    }
}

/// Every pseudonym has the same shape: the nine-character prefix
/// `NGBW-JOB-` followed by exactly 12 characters from `0-9A-Z`.
pub proof fn lemma_job_id_pseudonym_shape(id: Seq<char>)
    ensures
        spec_anonymize_job_id(id).len() == 21,
        spec_anonymize_job_id(id).subrange(0, 9) == job_prefix(),
        forall|i: int| 9 <= i < 21 ==> is_base36_char(#[trigger] spec_anonymize_job_id(id)[i]),
{
    reveal_strlit("NGBW-JOB-");
    let h = job_hash(vstd::utf8::encode_utf8(id));
    lemma_base36_digits_shape(h, 12);
    assert(spec_anonymize_job_id(id).subrange(0, 9) =~= job_prefix());
    assert forall|i: int| 9 <= i < 21 implies is_base36_char(
        #[trigger] spec_anonymize_job_id(id)[i],
    ) by {
        assert(spec_anonymize_job_id(id)[i] == base36_digits(h, 12)[i - 9]);
    }
}

} // verus!
