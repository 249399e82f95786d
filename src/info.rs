use crate::error::{Error, INVALID_VALUE};
use vstd::bytes::{spec_u32_from_le_bytes, spec_u64_from_le_bytes, u32_from_le_bytes, u64_from_le_bytes};
use vstd::prelude::*;
use vstd::slice::slice_subrange;

verus! {

/// The text that the bytes `b` encode in UTF-8, or nothing where they are
/// not valid UTF-8.
pub uninterp spec fn utf8_text(b: Seq<u8>) -> Option<Seq<char>>;

/// Relies on `String::from_utf8`: it decodes valid UTF-8 and refuses any
/// other bytes, and its answer depends on the bytes alone.
#[verifier::external_body]
fn decode_utf8(b: &Vec<u8>) -> (r: Option<String>)
    ensures
        match r {
            Some(s) => utf8_text(b@) == Some(s@),
            None => utf8_text(b@) is None,
        },
{
    String::from_utf8(b.clone()).ok()
}

/// One answer of the runtime to a capability query: the status it returned
/// (zero for success) and the bytes of the value, in little-endian order.
pub struct InfoEntry {
    pub param: u32,
    pub status: i32,
    pub value: Vec<u8>,
}

/// The answers of the runtime to capability queries about one object. Where
/// a parameter was answered twice, the first answer counts.
pub struct InfoTable {
    pub entries: Vec<InfoEntry>,
}

/// The first answer in `entries` about `param`.
pub open spec fn answer_in(entries: Seq<InfoEntry>, param: u32) -> Option<InfoEntry>
    decreases entries.len(),
{
    if entries.len() == 0 {
        None
    } else if entries[0].param == param {
        Some(entries[0])
    } else {
        answer_in(entries.drop_first(), param)
    }
}

/// `b` read as consecutive eight-byte little-endian integers; trailing
/// bytes that make no whole integer are ignored.
pub open spec fn words_of(b: Seq<u8>) -> Seq<u64> {
    Seq::new(b.len() / 8, |k: int| spec_u64_from_le_bytes(b.subrange(8 * k, 8 * k + 8)))
}

impl InfoTable {
    /// The value of `param`, or why it could not be had: the runtime's
    /// status, or `INVALID_VALUE` for a parameter that was never answered.
    pub open spec fn query(self, param: u32) -> Result<Seq<u8>, Error> {
        match answer_in(self.entries@, param) {
            None => Err(Error::RuntimeQuery(INVALID_VALUE)),
            Some(e) => if e.status == 0 {
                Ok(e.value@)
            } else {
                Err(Error::RuntimeQuery(e.status))
            },
        }
    }

    /// The value of `param`, which must be `width` bytes long.
    pub open spec fn sized(self, param: u32, width: nat) -> Result<Seq<u8>, Error> {
        match self.query(param) {
            Ok(b) => if b.len() == width {
                Ok(b)
            } else {
                Err(Error::InfoSize { param, len: b.len() as usize })
            },
            Err(e) => Err(e),
        }
    }

    pub open spec fn u32_answer(self, param: u32) -> Result<u32, Error> {
        match self.sized(param, 4) {
            Ok(b) => Ok(spec_u32_from_le_bytes(b)),
            Err(e) => Err(e),
        }
    }

    pub open spec fn u64_answer(self, param: u32) -> Result<u64, Error> {
        match self.sized(param, 8) {
            Ok(b) => Ok(spec_u64_from_le_bytes(b)),
            Err(e) => Err(e),
        }
    }

    /// A size: four or eight bytes, whose value must fit in a `usize`.
    pub open spec fn usize_answer(self, param: u32) -> Result<usize, Error> {
        match self.query(param) {
            Ok(b) => if b.len() == 4 {
                Ok(spec_u32_from_le_bytes(b) as usize)
            } else if b.len() == 8 && spec_u64_from_le_bytes(b) <= usize::MAX {
                Ok(spec_u64_from_le_bytes(b) as usize)
            } else {
                Err(Error::InfoSize { param, len: b.len() as usize })
            },
            Err(e) => Err(e),
        }
    }

    /// A boolean value: a four-byte integer, true when it is one.
    pub open spec fn bool_answer(self, param: u32) -> Result<bool, Error> {
        match self.u32_answer(param) {
            Ok(v) => Ok(v == 1),
            Err(e) => Err(e),
        }
    }

    /// A list of sizes, eight bytes each, every one of which must fit in a
    /// `usize`.
    pub open spec fn sizes_answer(self, param: u32) -> Result<Seq<usize>, Error> {
        match self.query(param) {
            Ok(b) => if forall|k: int| 0 <= k < words_of(b).len() ==> #[trigger] words_of(b)[k] <= usize::MAX {
                Ok(words_of(b).map_values(|w: u64| w as usize))
            } else {
                Err(Error::InfoSize { param, len: b.len() as usize })
            },
            Err(e) => Err(e),
        }
    }

    pub open spec fn text_answer(self, param: u32) -> Result<Seq<char>, Error> {
        match self.query(param) {
            Ok(b) => match utf8_text(b) {
                Some(s) => Ok(s),
                None => Err(Error::InvalidText(param)),
            },
            Err(e) => Err(e),
        }
    }

    /// A table with the answers `entries`.
    pub fn new(entries: Vec<InfoEntry>) -> (r: InfoTable)
        ensures
            r.entries@ == entries@,
    {
        InfoTable { entries }
    }

    /// Where the value of `param` stands in the table.
    fn locate(&self, param: u32) -> (r: Result<usize, Error>)
        ensures
            match r {
                Ok(i) => i < self.entries@.len() && self.query(param) == Ok::<Seq<u8>, Error>(
                    self.entries@[i as int].value@,
                ),
                Err(e) => self.query(param) == Err::<Seq<u8>, Error>(e),
            },
    {
        let mut i: usize = 0;
        assert(self.entries@.subrange(0, self.entries@.len() as int) == self.entries@);
        while i < self.entries.len()
            invariant
                i <= self.entries@.len(),
                answer_in(self.entries@, param) == answer_in(
                    self.entries@.subrange(i as int, self.entries@.len() as int),
                    param,
                ),
            decreases self.entries@.len() - i,
        {
            let rest = Ghost(self.entries@.subrange(i as int, self.entries@.len() as int));
            assert(rest@[0] == self.entries@[i as int]);
            assert(rest@.drop_first() == self.entries@.subrange(i + 1, self.entries@.len() as int));
            let e = &self.entries[i];
            if e.param == param {
                if e.status == 0 {
                    return Ok(i);
                }
                return Err(Error::RuntimeQuery(e.status));
            }
            i = i + 1;
        }
        Err(Error::RuntimeQuery(INVALID_VALUE))
    }

    /// Where the value of `param` stands, checked to be `width` bytes long.
    fn locate_sized(&self, param: u32, width: usize) -> (r: Result<usize, Error>)
        ensures
            match r {
                Ok(i) => i < self.entries@.len() && self.sized(param, width as nat) == Ok::<Seq<u8>, Error>(
                    self.entries@[i as int].value@,
                ),
                Err(e) => self.sized(param, width as nat) == Err::<Seq<u8>, Error>(e),
            },
    {
        let i = self.locate(param)?;
        let len = self.entries[i].value.len();
        if len != width {
            return Err(Error::InfoSize { param, len });
        }
        Ok(i)
    }

    pub fn get_u32(&self, param: u32) -> (r: Result<u32, Error>)
        ensures
            r == self.u32_answer(param),
    {
        let i = self.locate_sized(param, 4)?;
        Ok(u32_from_le_bytes(self.entries[i].value.as_slice()))
    }

    pub fn get_u64(&self, param: u32) -> (r: Result<u64, Error>)
        ensures
            r == self.u64_answer(param),
    {
        let i = self.locate_sized(param, 8)?;
        Ok(u64_from_le_bytes(self.entries[i].value.as_slice()))
    }

    pub fn get_usize(&self, param: u32) -> (r: Result<usize, Error>)
        ensures
            r == self.usize_answer(param),
    {
        let i = self.locate(param)?;
        let b = self.entries[i].value.as_slice();
        if b.len() == 4 {
            return Ok(u32_from_le_bytes(b) as usize);
        }
        if b.len() == 8 {
            let v = u64_from_le_bytes(b);
            if v <= usize::MAX as u64 {
                return Ok(v as usize);
            }
        }
        Err(Error::InfoSize { param, len: b.len() })
    }

    pub fn get_bool(&self, param: u32) -> (r: Result<bool, Error>)
        ensures
            r == self.bool_answer(param),
    {
        let v = self.get_u32(param)?;
        Ok(v == 1)
    }

    pub fn get_sizes(&self, param: u32) -> (r: Result<Vec<usize>, Error>)
        ensures
            match self.sizes_answer(param) {
                Ok(s) => r matches Ok(v) && v@ == s,
                Err(e) => r matches Err(x) && x == e,
            },
    {
        let i = self.locate(param)?;
        let b = self.entries[i].value.as_slice();
        let blen = b.len();
        let n = blen / 8;
        let ghost words = words_of(b@);
        let mut out: Vec<usize> = Vec::new();
        let mut k: usize = 0;
        while k < n
            invariant
                blen == b@.len(),
                n == b@.len() / 8,
                self.sizes_answer(param) == (if forall|j: int|
                    0 <= j < words.len() ==> #[trigger] words[j] <= usize::MAX {
                    Ok::<Seq<usize>, Error>(words.map_values(|w: u64| w as usize))
                } else {
                    Err(Error::InfoSize { param, len: blen })
                }),
                words == words_of(b@),
                k <= n,
                out@ == words.subrange(0, k as int).map_values(|w: u64| w as usize),
                forall|j: int| 0 <= j < k ==> #[trigger] words[j] <= usize::MAX,
            decreases n - k,
        {
            assert(8 * k + 8 <= blen) by (nonlinear_arith)
                requires
                    k < n,
                    n == blen / 8,
            ;
            let v = u64_from_le_bytes(slice_subrange(b, 8 * k, 8 * k + 8));
            assert(v == words[k as int]);
            if v > usize::MAX as u64 {
                assert(!(words[k as int] <= usize::MAX));
                return Err(Error::InfoSize { param, len: blen });
            }
            out.push(v as usize);
            k = k + 1;
            assert(words.subrange(0, k as int).map_values(|w: u64| w as usize) =~= words.subrange(
                0,
                k - 1,
            ).map_values(|w: u64| w as usize).push(v as usize));
        }
        assert(words.subrange(0, n as int) == words);
        Ok(out)
    }

    pub fn get_text(&self, param: u32) -> (r: Result<String, Error>)
        ensures
            match self.text_answer(param) {
                Ok(s) => r matches Ok(t) && t@ == s,
                Err(e) => r matches Err(x) && x == e,
            },
    {
        let i = self.locate(param)?;
        match decode_utf8(&self.entries[i].value) {
            Some(s) => Ok(s),
            None => Err(Error::InvalidText(param)),
        }
    }
}

} // verus!
