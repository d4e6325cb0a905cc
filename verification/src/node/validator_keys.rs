//! The key files of a validator.
//!
//! A key directory holds a secret Falcon key and may hold the public one, each
//! either as a JSON file or as a file of hexadecimal digits. A secret key file
//! must be readable by its owner alone. Where there is no public key file, the
//! public key is derived from the secret one.

use vstd::prelude::*;
use vstd::string::*;

use crate::primitives::hexadecimal::{decode, hex_decoded, lemma_decoding_is_unique, HexError};
use crate::primitives::text::{digit_char, join, join3};

verus! {

/// What is found under a file name in the key directory.
#[derive(Debug, Clone)]
pub struct KeyFile {
    /// Path of the file.
    pub path: String,
    /// Permission bits of the file; none where they cannot be read.
    pub mode: Option<u32>,
    /// Text of the file; none where it cannot be read.
    pub text: Option<String>,
    /// The member `hex` of the JSON object that the text is; none where the
    /// text is no such object.
    pub hex: Option<String>,
}

/// What is found at the path of the key directory.
#[derive(Debug, Clone)]
pub struct KeyDirectory {
    /// The path.
    pub path: String,
    /// Whether anything is there.
    pub exists: bool,
    /// Whether that is a directory.
    pub is_dir: bool,
    /// The file `falcon-secret.json`, if it is there.
    pub secret_json: Option<KeyFile>,
    /// The file `falcon.sk`, if it is there.
    pub secret_hex: Option<KeyFile>,
    /// The file `falcon-public.json`, if it is there.
    pub public_json: Option<KeyFile>,
    /// The file `falcon.vk`, if it is there.
    pub public_hex: Option<KeyFile>,
}

/// The keys of a validator, as bytes.
#[derive(Clone)]
pub struct ValidatorKeyPair {
    /// Signing key.
    pub signing_key: Vec<u8>,
    /// Verification key.
    pub verify_key: Vec<u8>,
}

impl ValidatorKeyPair {
    /// The pair for logs, without the keys.
    pub fn to_debug_string(&self) -> (r: String)
        ensures
            r@
                == "ValidatorKeyPair { signing_key: \"<redacted>\", verify_key: \"<redacted>\" }"@,
    {
        "ValidatorKeyPair { signing_key: \"<redacted>\", verify_key: \"<redacted>\" }".to_owned()
    }
}

/// The permission bits of `mode` for owner, group and others, as four octal
/// digits.
pub open spec fn octal_mode(mode: u32) -> Seq<char> {
    seq![
        '0',
        digit_char(((mode / 64) % 8) as nat),
        digit_char(((mode / 8) % 8) as nat),
        digit_char((mode % 8) as nat),
    ]
}

fn octal_digit(d: u32) -> (r: &'static str)
    requires
        d < 8,
    ensures
        r@ == seq![digit_char(d as nat)],
{
    proof {
        reveal_strlit("0");
        reveal_strlit("1");
        reveal_strlit("2");
        reveal_strlit("3");
        reveal_strlit("4");
        reveal_strlit("5");
        reveal_strlit("6");
        reveal_strlit("7");
    }
    if d == 0 {
        "0"
    } else if d == 1 {
        "1"
    } else if d == 2 {
        "2"
    } else if d == 3 {
        "3"
    } else if d == 4 {
        "4"
    } else if d == 5 {
        "5"
    } else if d == 6 {
        "6"
    } else {
        "7"
    }
}

fn octal_text(mode: u32) -> (r: String)
    ensures
        r@ == octal_mode(mode),
{
    let mut out = octal_digit(0).to_owned();
    out.append(octal_digit((mode / 64) % 8));
    out.append(octal_digit((mode / 8) % 8));
    out.append(octal_digit(mode % 8));
    assert(out@ =~= octal_mode(mode));
    out
}

/// Whether group or others have any permission.
pub open spec fn is_shared(mode: u32) -> bool {
    mode % 64 != 0
}

/// What is wrong with the permissions of a secret key file.
pub open spec fn permission_fault(path: Seq<char>, mode: Option<u32>) -> Option<Seq<char>> {
    match mode {
        None => Some("failed to read metadata for "@ + path),
        Some(bits) => if is_shared(bits) {
            Some(
                "validator key file "@ + path + " has overly permissive mode "@ + octal_mode(bits)
                    + " \u{2014} expected 0600 (owner read/write only). Fix with: chmod 600 "@
                    + path,
            )
        } else {
            None
        },
    }
}

/// Checks that a secret key file is its owner's alone.
pub fn check_file_permissions(path: &str, mode: Option<u32>) -> (r: Result<(), String>)
    ensures
        match permission_fault(path@, mode) {
            None => r is Ok,
            Some(m) => r is Err && r->Err_0@ == m,
        },
{
    match mode {
        None => Err(join("failed to read metadata for ", path)),
        Some(bits) => {
            let low: u32 = bits & 0o077;
            assert(bits & 0o077 == bits % 64) by (bit_vector);
            if low != 0 {
                let mut text = join3("validator key file ", path, " has overly permissive mode ");
                text.append(octal_text(bits).as_str());
                text.append(
                    " \u{2014} expected 0600 (owner read/write only). Fix with: chmod 600 ",
                );
                text.append(path);
                return Err(text);
            }
            Ok(())
        },
    }
}

/// Whether a character is white space.
pub open spec fn is_space(c: char) -> bool {
    let n = c as u32;
    ||| 9 <= n <= 13
    ||| n == 0x20
    ||| n == 0x85
    ||| n == 0xa0
    ||| n == 0x1680
    ||| 0x2000 <= n <= 0x200a
    ||| n == 0x2028
    ||| n == 0x2029
    ||| n == 0x202f
    ||| n == 0x205f
    ||| n == 0x3000
}

fn space(c: char) -> (r: bool)
    ensures
        r == is_space(c),
{
    let n: u32 = c as u32;
    (9 <= n && n <= 13) || n == 0x20 || n == 0x85 || n == 0xa0 || n == 0x1680 || (0x2000 <= n && n
        <= 0x200a) || n == 0x2028 || n == 0x2029 || n == 0x202f || n == 0x205f || n == 0x3000
}

/// A text without the white space at its ends.
pub open spec fn trimmed(text: Seq<char>) -> Seq<char>
    decreases text.len(),
{
    if text.len() == 0 {
        text
    } else if is_space(text.last()) {
        trimmed(text.drop_last())
    } else if is_space(text[0]) {
        trimmed(text.drop_first())
    } else {
        text
    }
}

proof fn lemma_trim_front(text: Seq<char>)
    requires
        text.len() > 0,
        is_space(text[0]),
    ensures
        trimmed(text) == trimmed(text.drop_first()),
    decreases text.len(),
{
    if is_space(text.last()) {
        if text.len() == 1 {
            assert(text.drop_last() =~= text.drop_first());
        } else {
            assert(text.drop_last()[0] == text[0]);
            lemma_trim_front(text.drop_last());
            assert(text.drop_last().drop_first() =~= text.drop_first().drop_last());
            assert(text.drop_first().last() == text.last());
        }
    }
}

/// A text without the white space at its ends.
pub fn trim(text: &str) -> (r: String)
    ensures
        r@ == trimmed(text@),
{
    let n: usize = text.unicode_len();
    let mut start: usize = 0;
    assert(text@.subrange(0, n as int) =~= text@);
    while start < n && space(text.get_char(start))
        invariant
            0 <= start <= n,
            n == text@.len(),
            trimmed(text@) == trimmed(text@.subrange(start as int, n as int)),
        decreases n - start,
    {
        proof {
            let rest = text@.subrange(start as int, n as int);
            assert(rest[0] == text@[start as int]);
            lemma_trim_front(rest);
            assert(rest.drop_first() =~= text@.subrange(start + 1, n as int));
        }
        start = start + 1;
    }
    let mut end: usize = n;
    while end > start && space(text.get_char(end - 1))
        invariant
            0 <= start <= end <= n,
            n == text@.len(),
            start < n ==> !is_space(text@[start as int]),
            trimmed(text@) == trimmed(text@.subrange(start as int, end as int)),
        decreases end,
    {
        proof {
            let rest = text@.subrange(start as int, end as int);
            assert(rest.last() == text@[end - 1]);
            assert(rest.drop_last() =~= text@.subrange(start as int, end - 1));
        }
        end = end - 1;
    }
    proof {
        let rest = text@.subrange(start as int, end as int);
        if rest.len() > 0 {
            assert(rest[0] == text@[start as int]);
            assert(rest.last() == text@[end - 1]);
        }
    }
    text.substring_char(start, end).to_owned()
}

/// The hexadecimal digits in a JSON key file.
pub open spec fn json_digits(file: KeyFile) -> Result<Seq<char>, Seq<char>> {
    match file.text {
        None => Err("failed to read "@ + file.path@),
        Some(_) => match file.hex {
            None => Err("failed to parse "@ + file.path@),
            Some(digits) => Ok(digits@),
        },
    }
}

/// The hexadecimal digits in a plain key file.
pub open spec fn plain_digits(file: KeyFile) -> Result<Seq<char>, Seq<char>> {
    match file.text {
        None => Err("failed to read "@ + file.path@),
        Some(text) => Ok(trimmed(text@)),
    }
}

/// A text outcome by its view.
pub open spec fn told(r: Result<String, String>) -> Result<Seq<char>, Seq<char>> {
    match r {
        Ok(t) => Ok(t@),
        Err(m) => Err(m@),
    }
}

fn read_json(file: &KeyFile) -> (r: Result<String, String>)
    ensures
        told(r) == json_digits(*file),
{
    match &file.text {
        None => Err(join("failed to read ", file.path.as_str())),
        Some(_) => match &file.hex {
            None => Err(join("failed to parse ", file.path.as_str())),
            Some(digits) => Ok(digits.clone()),
        },
    }
}

fn read_plain(file: &KeyFile) -> (r: Result<String, String>)
    ensures
        told(r) == plain_digits(*file),
{
    match &file.text {
        None => Err(join("failed to read ", file.path.as_str())),
        Some(text) => Ok(trim(text.as_str())),
    }
}

/// The hexadecimal digits of the secret key. The JSON file comes before the
/// plain one, and either must be its owner's alone.
pub open spec fn secret_digits(dir: KeyDirectory) -> Result<Seq<char>, Seq<char>> {
    match (dir.secret_json, dir.secret_hex) {
        (Some(file), _) => match permission_fault(file.path@, file.mode) {
            Some(m) => Err(m),
            None => json_digits(file),
        },
        (None, Some(file)) => match permission_fault(file.path@, file.mode) {
            Some(m) => Err(m),
            None => plain_digits(file),
        },
        (None, None) => Err(
            "no Falcon key file found in "@ + dir.path@
                + " (expected falcon-secret.json or falcon.sk)"@,
        ),
    }
}

/// The hexadecimal digits of the public key, if there is a file for it. The
/// JSON file comes before the plain one.
pub open spec fn public_digits(dir: KeyDirectory) -> Option<Result<Seq<char>, Seq<char>>> {
    match (dir.public_json, dir.public_hex) {
        (Some(file), _) => Some(json_digits(file)),
        (None, Some(file)) => Some(plain_digits(file)),
        (None, None) => None,
    }
}

fn read_secret_digits(dir: &KeyDirectory) -> (r: Result<String, String>)
    ensures
        told(r) == secret_digits(*dir),
{
    match (&dir.secret_json, &dir.secret_hex) {
        (Some(file), _) => match check_file_permissions(file.path.as_str(), file.mode) {
            Err(m) => Err(m),
            Ok(()) => read_json(file),
        },
        (None, Some(file)) => match check_file_permissions(file.path.as_str(), file.mode) {
            Err(m) => Err(m),
            Ok(()) => read_plain(file),
        },
        (None, None) => Err(
            join3(
                "no Falcon key file found in ",
                dir.path.as_str(),
                " (expected falcon-secret.json or falcon.sk)",
            ),
        ),
    }
}

fn read_public_digits(dir: &KeyDirectory) -> (r: Option<Result<String, String>>)
    ensures
        match r {
            Some(digits) => public_digits(*dir) == Some(told(digits)),
            None => public_digits(*dir) is None,
        },
{
    match (&dir.public_json, &dir.public_hex) {
        (Some(file), _) => Some(read_json(file)),
        (None, Some(file)) => Some(read_plain(file)),
        (None, None) => None,
    }
}

/// Whether `accept` says of the key `bytes` that it is one, or that it is not.
pub open spec fn key_judged<F: Fn(&Vec<u8>) -> bool>(accept: F, bytes: Seq<u8>, verdict: bool) -> bool {
    exists|arg: Vec<u8>| arg@ == bytes && #[trigger] accept.ensures((&arg,), verdict)
}

/// Whether reading a key from its hexadecimal digits gives `r`, where `name`
/// is how the report of a fault calls the key.
pub open spec fn key_read<F: Fn(&Vec<u8>) -> bool>(
    digits: Result<Seq<char>, Seq<char>>,
    name: Seq<char>,
    accept: F,
    r: Result<Seq<u8>, Seq<char>>,
) -> bool {
    match digits {
        Err(m) => r == Err::<Seq<u8>, Seq<char>>(m),
        Ok(text) => match hex_decoded(text) {
            Err(_) => r == Err::<Seq<u8>, Seq<char>>(name + ": invalid hex in key file"@),
            Ok(bytes) => {
                ||| key_judged(accept, bytes, true) && r == Ok::<Seq<u8>, Seq<char>>(bytes)
                ||| key_judged(accept, bytes, false) && r == Err::<Seq<u8>, Seq<char>>(
                    name + ": invalid key bytes"@,
                )
            },
        },
    }
}

/// A key outcome by its view.
pub open spec fn seen(r: Result<Vec<u8>, String>) -> Result<Seq<u8>, Seq<char>> {
    match r {
        Ok(v) => Ok(v@),
        Err(m) => Err(m@),
    }
}

fn read_key<F: Fn(&Vec<u8>) -> bool>(digits: Result<String, String>, name: &str, accept: &F) -> (r:
    Result<Vec<u8>, String>)
    requires
        forall|bytes: &Vec<u8>| #[trigger] accept.requires((bytes,)),
    ensures
        key_read(told(digits), name@, *accept, seen(r)),
{
    let text = match digits {
        Ok(text) => text,
        Err(m) => {
            return Err(m);
        },
    };
    proof {
        lemma_decoding_is_unique(text@);
    }
    match decode(text.as_str()) {
        Err(_) => Err(join(name, ": invalid hex in key file")),
        Ok(bytes) => {
            let verdict = accept(&bytes);
            assert(key_judged(*accept, bytes@, verdict)) by {
                assert(accept.ensures((&bytes,), verdict));
            }
            if verdict {
                Ok(bytes)
            } else {
                Err(join(name, ": invalid key bytes"))
            }
        },
    }
}

/// Whether `derive` finds the public key of `signing_key` to be `verify_key`,
/// or none.
pub open spec fn key_derived<D: Fn(&Vec<u8>) -> Option<Vec<u8>>>(
    derive: D,
    signing_key: Vec<u8>,
    verify_key: Option<Vec<u8>>,
) -> bool {
    derive.ensures((&signing_key,), verify_key)
}

/// Whether `r` is the public key that belongs to `signing_key`, or why there
/// is none: it is read from its file where there is one, and derived
/// otherwise.
pub open spec fn verify_key_found<
    V: Fn(&Vec<u8>) -> bool,
    D: Fn(&Vec<u8>) -> Option<Vec<u8>>,
>(
    dir: KeyDirectory,
    signing_key: Vec<u8>,
    accept_public: V,
    derive: D,
    r: Result<Seq<u8>, Seq<char>>,
) -> bool {
    match public_digits(dir) {
        Some(digits) => key_read(digits, "falcon verify key"@, accept_public, r),
        None => exists|verify_key: Option<Vec<u8>>|
            {
                &&& #[trigger] key_derived(derive, signing_key, verify_key)
                &&& r == match verify_key {
                    Some(key) => Ok::<Seq<u8>, Seq<char>>(key@),
                    None => Err(
                        "no Falcon public key file found in "@ + dir.path@
                            + " (expected falcon-public.json or falcon.vk)"@,
                    ),
                }
            },
    }
}

/// Takes the public key from its file if there is one, and otherwise derives
/// it from the signing key. `derive` gives the public key of a signing key, if
/// it can be found.
pub fn load_or_derive_verify_key<
    V: Fn(&Vec<u8>) -> bool,
    D: Fn(&Vec<u8>) -> Option<Vec<u8>>,
>(dir: &KeyDirectory, signing_key: &Vec<u8>, accept_public: &V, derive: &D) -> (r: Result<
    Vec<u8>,
    String,
>)
    requires
        forall|bytes: &Vec<u8>| #[trigger] accept_public.requires((bytes,)),
        forall|key: &Vec<u8>| #[trigger] derive.requires((key,)),
    ensures
        verify_key_found(*dir, *signing_key, *accept_public, *derive, seen(r)),
{
    match read_public_digits(dir) {
        Some(digits) => read_key(digits, "falcon verify key", accept_public),
        None => {
            let verify_key = derive(signing_key);
            assert(key_derived(*derive, *signing_key, verify_key));
            match verify_key {
                Some(key) => Ok(key),
                None => Err(
                    join3(
                        "no Falcon public key file found in ",
                        dir.path.as_str(),
                        " (expected falcon-public.json or falcon.vk)",
                    ),
                ),
            }
        },
    }
}

/// Whether `r` is what becomes of the signing key `signing_key` and the public
/// key `public`.
pub open spec fn keys_paired(
    r: Result<ValidatorKeyPair, String>,
    signing_key: Vec<u8>,
    public: Result<Seq<u8>, Seq<char>>,
) -> bool {
    match public {
        Err(m) => r is Err && r->Err_0@ == m,
        Ok(verify_key) => {
            &&& r is Ok
            &&& r->Ok_0.signing_key == signing_key
            &&& r->Ok_0.verify_key@ == verify_key
        },
    }
}

/// Whether `r` are the keys in a directory, or why there are none: the secret
/// key is read first, then the public one is read or derived.
pub open spec fn keys_loaded<
    S: Fn(&Vec<u8>) -> bool,
    V: Fn(&Vec<u8>) -> bool,
    D: Fn(&Vec<u8>) -> Option<Vec<u8>>,
>(
    r: Result<ValidatorKeyPair, String>,
    dir: KeyDirectory,
    accept_secret: S,
    accept_public: V,
    derive: D,
) -> bool {
    if !dir.exists {
        r is Err && r->Err_0@ == "validator key directory does not exist: "@ + dir.path@
    } else if !dir.is_dir {
        r is Err && r->Err_0@ == "validator key path is not a directory: "@ + dir.path@
    } else {
        exists|secret: Result<Seq<u8>, Seq<char>>|
            {
                &&& #[trigger] key_read(
                    secret_digits(dir),
                    "falcon secret key"@,
                    accept_secret,
                    secret,
                )
                &&& match secret {
                    Err(m) => r is Err && r->Err_0@ == m,
                    Ok(bytes) => exists|signing_key: Vec<u8>, public: Result<Seq<u8>, Seq<char>>|
                        {
                            &&& #[trigger] verify_key_found(
                                dir,
                                signing_key,
                                accept_public,
                                derive,
                                public,
                            )
                            &&& signing_key@ == bytes
                            &&& keys_paired(r, signing_key, public)
                        },
                }
            }
    }
}

/// Takes the keys of a validator from what was found in its key directory.
/// `accept_secret` and `accept_public` say whether bytes are a key, and
/// `derive` gives the public key of a signing key.
pub fn load_validator_keys<
    S: Fn(&Vec<u8>) -> bool,
    V: Fn(&Vec<u8>) -> bool,
    D: Fn(&Vec<u8>) -> Option<Vec<u8>>,
>(dir: &KeyDirectory, accept_secret: &S, accept_public: &V, derive: &D) -> (r: Result<
    ValidatorKeyPair,
    String,
>)
    requires
        forall|bytes: &Vec<u8>| #[trigger] accept_secret.requires((bytes,)),
        forall|bytes: &Vec<u8>| #[trigger] accept_public.requires((bytes,)),
        forall|key: &Vec<u8>| #[trigger] derive.requires((key,)),
    ensures
        keys_loaded(r, *dir, *accept_secret, *accept_public, *derive),
{
    if !dir.exists {
        return Err(join("validator key directory does not exist: ", dir.path.as_str()));
    }
    if !dir.is_dir {
        return Err(join("validator key path is not a directory: ", dir.path.as_str()));
    }
    let secret = read_key(read_secret_digits(dir), "falcon secret key", accept_secret);
    assert(key_read(secret_digits(*dir), "falcon secret key"@, *accept_secret, seen(secret)));
    let signing_key = match secret {
        Ok(key) => key,
        Err(m) => {
            return Err(m);
        },
    };
    let public = load_or_derive_verify_key(dir, &signing_key, accept_public, derive);
    assert(verify_key_found(*dir, signing_key, *accept_public, *derive, seen(public)));
    match public {
        Ok(verify_key) => Ok(ValidatorKeyPair { signing_key, verify_key }),
        Err(m) => Err(m),
    }
}

/// No keys are loaded from a secret key file that group or others may touch.
pub proof fn law_shared_key_files_are_refused<
    S: Fn(&Vec<u8>) -> bool,
    V: Fn(&Vec<u8>) -> bool,
    D: Fn(&Vec<u8>) -> Option<Vec<u8>>,
>(
    r: Result<ValidatorKeyPair, String>,
    dir: KeyDirectory,
    accept_secret: S,
    accept_public: V,
    derive: D,
)
    requires
        keys_loaded(r, dir, accept_secret, accept_public, derive),
        r is Ok,
    ensures
        match (dir.secret_json, dir.secret_hex) {
            (Some(file), _) => file.mode is Some && !is_shared(file.mode->Some_0),
            (None, Some(file)) => file.mode is Some && !is_shared(file.mode->Some_0),
            (None, None) => false,
        },
{
}

/// A directory with an accepted secret key and no public key file gives that
/// key with the one derived from it, wherever one can be derived.
pub proof fn law_missing_public_keys_are_derived<
    S: Fn(&Vec<u8>) -> bool,
    V: Fn(&Vec<u8>) -> bool,
    D: Fn(&Vec<u8>) -> Option<Vec<u8>>,
>(
    r: Result<ValidatorKeyPair, String>,
    dir: KeyDirectory,
    bytes: Seq<u8>,
    accept_secret: S,
    accept_public: V,
    derive: D,
)
    requires
        keys_loaded(r, dir, accept_secret, accept_public, derive),
        dir.exists,
        dir.is_dir,
        secret_digits(dir) is Ok,
        hex_decoded(secret_digits(dir)->Ok_0) == Ok::<Seq<u8>, HexError>(bytes),
        !key_judged(accept_secret, bytes, false),
        dir.public_json is None,
        dir.public_hex is None,
        forall|key: Vec<u8>, found: Option<Vec<u8>>|
            key@ == bytes && #[trigger] key_derived(derive, key, found) ==> found is Some,
    ensures
        r is Ok,
        r->Ok_0.signing_key@ == bytes,
        exists|key: Vec<u8>| #[trigger]
            key_derived(derive, r->Ok_0.signing_key, Some(key)) && r->Ok_0.verify_key@ == key@,
{
    let secret = choose|secret: Result<Seq<u8>, Seq<char>>|
        {
            &&& #[trigger] key_read(
                secret_digits(dir),
                "falcon secret key"@,
                accept_secret,
                secret,
            )
            &&& match secret {
                Err(m) => r is Err && r->Err_0@ == m,
                Ok(found) => exists|signing_key: Vec<u8>, public: Result<Seq<u8>, Seq<char>>|
                    {
                        &&& #[trigger] verify_key_found(
                            dir,
                            signing_key,
                            accept_public,
                            derive,
                            public,
                        )
                        &&& signing_key@ == found
                        &&& keys_paired(r, signing_key, public)
                    },
            }
        };
    assert(secret == Ok::<Seq<u8>, Seq<char>>(bytes));
    let (signing_key, public) = choose|
        signing_key: Vec<u8>,
        public: Result<Seq<u8>, Seq<char>>,
    |
        {
            &&& #[trigger] verify_key_found(dir, signing_key, accept_public, derive, public)
            &&& signing_key@ == bytes
            &&& keys_paired(r, signing_key, public)
        };
    let found = choose|found: Option<Vec<u8>>|
        {
            &&& #[trigger] key_derived(derive, signing_key, found)
            &&& public == match found {
                Some(key) => Ok::<Seq<u8>, Seq<char>>(key@),
                None => Err(
                    "no Falcon public key file found in "@ + dir.path@
                        + " (expected falcon-public.json or falcon.vk)"@,
                ),
            }
        };
    assert(found is Some);
    assert(key_derived(derive, r->Ok_0.signing_key, Some(found->Some_0)));
}

/// Whether `sign` makes `signature` of `message` with the signing key `key`.
pub open spec fn message_signed<S: Fn(&Vec<u8>, &Vec<u8>) -> Vec<u8>>(
    sign: S,
    key: Vec<u8>,
    message: Vec<u8>,
    signature: Vec<u8>,
) -> bool {
    sign.ensures((&key, &message), signature)
}

/// Whether `verify` finds of a signature over `message` under the public key
/// `key` what `valid` says.
pub open spec fn message_verified<V: Fn(&Vec<u8>, &Vec<u8>, &Vec<u8>) -> bool>(
    verify: V,
    key: Vec<u8>,
    message: Vec<u8>,
    signature: Vec<u8>,
    valid: bool,
) -> bool {
    verify.ensures((&key, &message, &signature), valid)
}

/// Whether `derive` pairs keys: what a signing key signs verifies under the
/// public key that is derived from it.
pub open spec fn derive_pairs_keys<
    D: Fn(&Vec<u8>) -> Option<Vec<u8>>,
    S: Fn(&Vec<u8>, &Vec<u8>) -> Vec<u8>,
    V: Fn(&Vec<u8>, &Vec<u8>, &Vec<u8>) -> bool,
>(derive: D, sign: S, verify: V) -> bool {
    forall|
        signing_key: Vec<u8>,
        derived: Vec<u8>,
        verify_key: Vec<u8>,
        message: Vec<u8>,
        signature: Vec<u8>,
        valid: bool,
    |
        #[trigger] key_derived(derive, signing_key, Some(derived)) && derived@ == verify_key@
            && #[trigger] message_signed(sign, signing_key, message, signature)
            && #[trigger] message_verified(verify, verify_key, message, signature, valid) ==> valid
}

/// Where there is no public key file, what the loaded signing key signs
/// verifies under the loaded verification key, if `derive` pairs keys.
pub proof fn law_derived_keys_verify<
    A: Fn(&Vec<u8>) -> bool,
    B: Fn(&Vec<u8>) -> bool,
    D: Fn(&Vec<u8>) -> Option<Vec<u8>>,
    S: Fn(&Vec<u8>, &Vec<u8>) -> Vec<u8>,
    V: Fn(&Vec<u8>, &Vec<u8>, &Vec<u8>) -> bool,
>(
    keys: ValidatorKeyPair,
    dir: KeyDirectory,
    accept_secret: A,
    accept_public: B,
    derive: D,
    sign: S,
    verify: V,
    message: Vec<u8>,
    signature: Vec<u8>,
    valid: bool,
)
    requires
        keys_loaded(Ok(keys), dir, accept_secret, accept_public, derive),
        dir.public_json is None,
        dir.public_hex is None,
        derive_pairs_keys(derive, sign, verify),
        message_signed(sign, keys.signing_key, message, signature),
        message_verified(verify, keys.verify_key, message, signature, valid),
    ensures
        valid,
{
    let (signing_key, public) = choose|
        signing_key: Vec<u8>,
        public: Result<Seq<u8>, Seq<char>>,
    |
        {
            &&& #[trigger] verify_key_found(dir, signing_key, accept_public, derive, public)
            &&& keys_paired(Ok(keys), signing_key, public)
        };
    assert(public is Ok);
    let found = choose|found: Option<Vec<u8>>|
        {
            &&& #[trigger] key_derived(derive, signing_key, found)
            &&& found is Some
            &&& public == Ok::<Seq<u8>, Seq<char>>(found->Some_0@)
        };
    assert(key_derived(derive, keys.signing_key, Some(found->Some_0)));
}

} // verus!
