//! A small grammar over byte streams, built from the primitives: the word
//! `skip` is kept as it is, the word `test` is replaced by the bytes of the
//! configuration, and this repeats while one of the two words follows.
use vstd::prelude::*;

use crate::configured::Configured;
use crate::primitives::{config_read, lift_config, rewraps};
use nom::IResult;

verus! {

/// `s` begins with the bytes `p`.
pub open spec fn starts_with(s: Seq<u8>, p: Seq<u8>) -> bool {
    p.len() <= s.len() && s.subrange(0, p.len() as int) == p
}

/// The bytes of the word `skip`.
pub open spec fn skip_word() -> Seq<u8> {
    seq![115u8, 107u8, 105u8, 112u8]
}

/// The bytes of the word `test`.
pub open spec fn test_word() -> Seq<u8> {
    seq![116u8, 101u8, 115u8, 116u8]
}

/// The outputs that the grammar gives on `s` under the replacement
/// `config`, and the bytes that it leaves unread.
pub open spec fn replaced(config: Seq<u8>, s: Seq<u8>) -> (Seq<Seq<u8>>, Seq<u8>)
    decreases s.len(),
{
    if starts_with(s, skip_word()) {
        let rest = replaced(config, s.subrange(4, s.len() as int));
        (seq![skip_word()] + rest.0, rest.1)
    } else if starts_with(s, test_word()) {
        let rest = replaced(config, s.subrange(4, s.len() as int));
        (seq![config] + rest.0, rest.1)
    } else {
        (seq![], s)
    }
}

/// `r` is what matching the bytes `literal` at the start of `i` gives: the
/// rest of `i` and the matched part when `i` begins with `literal`, an error
/// otherwise.
pub open spec fn tag_result<'a>(literal: Seq<u8>, i: Seq<u8>, r: IResult<&'a [u8], &'a [u8], u32>) -> bool {
    match r {
        IResult::Done(rest, matched) => starts_with(i, literal) && rest@ == i.subrange(
            literal.len() as int,
            i.len() as int,
        ) && matched@ == literal,
        IResult::Error(_) => !starts_with(i, literal),
        IResult::Incomplete(_) => false,
    }
}

/// The bytes of each slice in `v`.
pub open spec fn views<'a>(v: Seq<&'a [u8]>) -> Seq<Seq<u8>> {
    v.map_values(|o: &'a [u8]| o@)
}

/// Relies on nom::tag_cl: the parser it builds succeeds exactly when the
/// input begins with `literal`, leaving what follows the literal and giving
/// the matched part; otherwise it fails with an error, never asking for more
/// input.
#[verifier::external_body]
fn tag<'a>(literal: &[u8], i: &'a [u8]) -> (r: IResult<&'a [u8], &'a [u8], u32>)
    ensures
        tag_result(literal@, i@, r),
{
    nom::tag_cl(literal)(i)
}

/// Matches the word `test` and gives the configuration's bytes in its place.
pub fn replace_test<'a>(i: Configured<&'a [u8], &'a [u8]>) -> (r: IResult<
    Configured<&'a [u8], &'a [u8]>,
    &'a [u8],
    u32,
>)
    ensures
        if starts_with(i.bytes(), test_word()) {
            r matches IResult::Done(w, o) && w.spec_config() == i.spec_config() && w.bytes()
                == i.bytes().subrange(4, i.bytes().len() as int) && o == i.spec_config()
        } else {
            r matches IResult::Error(_)
        },
{
    let (i, cfg) = match config_read::<&'a [u8], &'a [u8], u32>(i) {
        IResult::Done(rest, c) => (rest, c),
        IResult::Error(e) => return IResult::Error(e),
        IResult::Incomplete(n) => return IResult::Incomplete(n),
    };
    let word: [u8; 4] = [116u8, 101u8, 115u8, 116u8];
    assert(word@ =~= test_word());
    let test_tag = move |s: &'a [u8]| -> (r: IResult<&'a [u8], &'a [u8], u32>)
        ensures
            tag_result(test_word(), s@, r),
        { tag(word.as_slice(), s) };
    match lift_config(i, test_tag) {
        IResult::Done(rest, _) => IResult::Done(rest, cfg),
        IResult::Error(e) => IResult::Error(e),
        IResult::Incomplete(n) => IResult::Incomplete(n),
    }
}

/// Repeatedly keeps a `skip` (run as a bare-stream parser under
/// `lift_config`) or replaces a `test` by the configuration's bytes, until
/// the input is used up or neither word follows. It always succeeds and
/// leaves the unread bytes with the same configuration.
pub fn replace_tests<'a>(i: Configured<&'a [u8], &'a [u8]>) -> (r: IResult<
    Configured<&'a [u8], &'a [u8]>,
    Vec<&'a [u8]>,
    u32,
>)
    ensures
        r matches IResult::Done(w, outs) && w.spec_config() == i.spec_config() && w.bytes()
            == replaced(i.spec_config()@, i.bytes()).1 && views(outs@)
            == replaced(i.spec_config()@, i.bytes()).0,
{
    let ghost cfg = i.spec_config()@;
    let word: [u8; 4] = [115u8, 107u8, 105u8, 112u8];
    assert(word@ =~= skip_word());
    let mut input = i;
    let mut res: Vec<&'a [u8]> = Vec::new();
    loop
        invariant
            word@ == skip_word(),
            cfg == i.spec_config()@,
            input.spec_config() == i.spec_config(),
            replaced(cfg, i.bytes()).1 == replaced(cfg, input.bytes()).1,
            replaced(cfg, i.bytes()).0 == views(res@) + replaced(
                cfg,
                input.bytes(),
            ).0,
        decreases input.bytes().len(),
    {
        if input.input_len() == 0 {
            assert(views(res@) + seq![] =~= views(res@));
            return IResult::Done(input, res);
        }
        let skip_tag = move |s: &'a [u8]| -> (r: IResult<&'a [u8], &'a [u8], u32>)
            ensures
                tag_result(skip_word(), s@, r),
            { tag(word.as_slice(), s) };
        let out: &'a [u8];
        let rest: Configured<&'a [u8], &'a [u8]>;
        let lifted = lift_config(input, skip_tag);
        match lifted {
            IResult::Done(w, o) => {
                rest = w;
                out = o;
            },
            _ => {
                match replace_test(input) {
                    IResult::Done(w, o) => {
                        rest = w;
                        out = o;
                    },
                    _ => {
                        assert(views(res@) + seq![] =~= views(res@));
                        return IResult::Done(input, res);
                    },
                }
            },
        }
        let ghost before = views(res@);
        res.push(out);
        assert(views(res@) =~= before.push(out@));
        assert(replaced(cfg, input.bytes()).0 =~= seq![out@] + replaced(cfg, rest.bytes()).0);
        assert(before + replaced(cfg, input.bytes()).0 =~= before.push(out@) + replaced(
            cfg,
            rest.bytes(),
        ).0);
        input = rest;
    }
}

} // verus!
