//! Iranian utility bills: the bill and payment identifiers, their modulo-11
//! check digits, and the barcode that carries both.

use vstd::prelude::*;
use crate::text::chars_of;
use crate::text::dec_digits;
use crate::text::dec_val;
use crate::text::digit_val;
use crate::text::extend_with_chars;
use crate::text::is_dec_digit;
use crate::text::parse_u64_range;
use crate::text::string_from_chars;
use crate::text::u64_to_chars;
use vstd::string::StringSliceAdditionalSpecFns;

verus! {

/// What can go wrong with a bill, a payment identifier, or a barcode.
#[derive(Clone, Copy, Debug, Hash, PartialEq, Eq, Structural)]
pub enum BillError {
    /// A barcode must be twenty-six bytes.
    InvalidBarcodeLength,
    /// A payment identifier must be six to thirteen bytes.
    InvalidPaymentIDLength,
    /// The payment identifier fails its checks.
    InvalidPaymentID,
    /// A bill identifier must be six to thirteen bytes.
    InvalidBillIDLength,
    /// The amount part is not a number.
    InvalidBillIDAmount,
    /// The year digit is not a digit.
    InvalidBillIDYear,
    /// The period part is not a number.
    InvalidBillIDPeriod,
    /// A check digit does not match.
    InvalidBillChecksum,
    /// The service type digit names no service.
    InvalidBillType,
    /// A character is not a decimal digit.
    InvalidDigits,
}

/// The service a bill pays for.
#[derive(Clone, Copy, PartialEq, Eq, Debug, Hash, Structural)]
pub enum BillType {
    Water,
    Electricity,
    Gas,
    Tel,
    Mobile,
    Municipality,
    Tax,
    DrivingOffense,
}

/// The service type code of a bill type.
pub open spec fn bill_type_code(t: BillType) -> int {
    match t {
        BillType::Water => 1,
        BillType::Electricity => 2,
        BillType::Gas => 3,
        BillType::Tel => 4,
        BillType::Mobile => 5,
        BillType::Municipality => 6,
        BillType::Tax => 7,
        BillType::DrivingOffense => 8,
    }
}

/// The bill type with a service type code.
pub open spec fn bill_type_of_code(d: int) -> Option<BillType> {
    if d == 1 {
        Some(BillType::Water)
    } else if d == 2 {
        Some(BillType::Electricity)
    } else if d == 3 {
        Some(BillType::Gas)
    } else if d == 4 {
        Some(BillType::Tel)
    } else if d == 5 {
        Some(BillType::Mobile)
    } else if d == 6 {
        Some(BillType::Municipality)
    } else if d == 7 {
        Some(BillType::Tax)
    } else if d == 8 {
        Some(BillType::DrivingOffense)
    } else {
        None
    }
}

impl BillType {
    /// The bill type with a service type code.
    pub fn from_u8(d: u8) -> (r: Option<BillType>)
        ensures
            r == bill_type_of_code(d as int),
    {
        match d {
            1 => Some(BillType::Water),
            2 => Some(BillType::Electricity),
            3 => Some(BillType::Gas),
            4 => Some(BillType::Tel),
            5 => Some(BillType::Mobile),
            6 => Some(BillType::Municipality),
            7 => Some(BillType::Tax),
            8 => Some(BillType::DrivingOffense),
            _ => None,
        }
    }

    /// The service type code.
    pub fn code(&self) -> (r: u8)
        ensures
            r == bill_type_code(*self),
    {
        match self {
            BillType::Water => 1,
            BillType::Electricity => 2,
            BillType::Gas => 3,
            BillType::Tel => 4,
            BillType::Mobile => 5,
            BillType::Municipality => 6,
            BillType::Tax => 7,
            BillType::DrivingOffense => 8,
        }
    }
}

/// The currency an amount is asked in.
#[derive(Clone, Copy, PartialEq, Eq, Debug, Hash, Structural)]
pub enum CurrencyType {
    Rials,
    Tomans,
}

/// The modulo-11 weighted digit sum: the digit `j` places from the right
/// carries weight `j % 6 + 2`.
pub open spec fn b11_sum(s: Seq<char>, i: int) -> int
    decreases s.len() - i,
{
    if i < 0 || i >= s.len() {
        0
    } else {
        digit_val(s[i]) * ((s.len() - 1 - i) % 6 + 2) + b11_sum(s, i + 1)
    }
}

/// The modulo-11 check digit of a digit run: the weighted sum modulo eleven,
/// a remainder under two standing for zero, any other for its complement to
/// eleven. A run with a non-digit has no check digit.
pub open spec fn b11_checksum(s: Seq<char>) -> Option<int> {
    if exists|i: int| 0 <= i < s.len() && !is_dec_digit(s[i]) {
        None
    } else {
        let m = b11_sum(s, 0) % 11;
        if m < 2 {
            Some(0)
        } else {
            Some(11 - m)
        }
    }
}

/// The modulo-11 check digit of a digit run.
#[verifier::loop_isolation(false)]
fn base11_checksum(v: &Vec<char>, from: usize, to: usize) -> (r: Result<u8, BillError>)
    requires
        from <= to <= v@.len(),
    ensures
        match b11_checksum(v@.subrange(from as int, to as int)) {
            Some(c) => r matches Ok(x) && x == c,
            None => r == Err::<u8, BillError>(BillError::InvalidDigits),
        },
{
    let ghost s = v@.subrange(from as int, to as int);
    let mut j: usize = from;
    while j < to
        invariant
            from <= j <= to,
            forall|k: int| 0 <= k < j - from ==> is_dec_digit(#[trigger] s[k]),
        decreases to - j,
    {
        let c = v[j];
        if !('0' <= c && c <= '9') {
            proof {
                assert(!is_dec_digit(s[j - from]));
            }
            return Err(BillError::InvalidDigits);
        }
        j = j + 1;
    }
    let mut sum: u32 = 0;
    let mut i: usize = from;
    let ghost mut prefix: int = 0;
    while i < to
        invariant
            from <= i <= to,
            sum <= 10,
            prefix == b11_sum(s, 0) - b11_sum(s, i - from),
            sum == prefix % 11,
        decreases to - i,
    {
        let c = v[i];
        let d: u32 = (c as u32) - ('0' as u32);
        let dist: usize = to - 1 - i;
        let w: u32 = ((dist % 6) as u32) + 2;
        let ghost dw = (d * w) as int;
        proof {
            assert(d * w <= 63) by (nonlinear_arith)
                requires
                    0 <= d <= 9,
                    2 <= w <= 7,
            ;
            assert(d * w == digit_val(s[i - from]) * ((s.len() - 1 - (i - from)) % 6 + 2));
            vstd::arithmetic::div_mod::lemma_add_mod_noop(prefix, dw, 11);
            vstd::arithmetic::div_mod::lemma_add_mod_noop_right(prefix % 11, dw, 11);
            vstd::arithmetic::div_mod::lemma_mod_twice(dw, 11);
            assert((sum + d * w) % 11 == (prefix + dw) % 11);
            prefix = prefix + dw;
        }
        sum = (sum + d * w) % 11;
        i = i + 1;
    }
    proof {
        assert(b11_sum(s, s.len() as int) == 0);
    }
    if sum < 2 {
        Ok(0)
    } else {
        Ok((11 - sum) as u8)
    }
}

/// What parsing a bill identifier yields: the file part, the company code,
/// the service type code, and the check digit.
pub open spec fn bill_id_parse(s: Seq<char>, byte_len: int) -> Result<
    (Seq<char>, Seq<char>, BillType, int),
    BillError,
> {
    if byte_len < 6 || byte_len > 13 {
        Err(BillError::InvalidBillIDLength)
    } else if s.len() < 6 {
        Err(BillError::InvalidBillChecksum)
    } else if !is_dec_digit(s[s.len() - 1]) {
        Err(BillError::InvalidBillChecksum)
    } else {
        let checksum = digit_val(s[s.len() - 1]);
        match b11_checksum(s.take(s.len() - 1)) {
            None => Err(BillError::InvalidDigits),
            Some(calc) => {
                if calc != checksum {
                    Err(BillError::InvalidBillChecksum)
                } else if !is_dec_digit(s[s.len() - 2]) {
                    Err(BillError::InvalidBillChecksum)
                } else {
                    match bill_type_of_code(digit_val(s[s.len() - 2])) {
                        None => Err(BillError::InvalidBillType),
                        Some(t) => Ok(
                            (s.take(s.len() - 5), s.subrange(s.len() - 5, s.len() - 2), t, checksum),
                        ),
                    }
                }
            },
        }
    }
}

/// A bill identifier: the company's file part, the company code, the service
/// type, and the check digit.
#[derive(Debug, PartialEq, Eq, Clone, Hash)]
pub struct BillID {
    pub file_id: String,
    pub company_code: String,
    pub kind: BillType,
    pub checksum: u8,
}

impl BillID {
    /// Parses a bill identifier: six to thirteen digits whose last digit is
    /// the modulo-11 check digit and whose second-to-last names the service.
    #[verifier::loop_isolation(false)]
    pub fn parse_str(s: &str) -> (r: Result<BillID, BillError>)
        ensures
            ({
                let bl = s.spec_bytes().len() as usize as int;
                match bill_id_parse(s@, bl) {
                    Ok(t) => r matches Ok(b) && b.file_id@ == t.0 && b.company_code@ == t.1
                        && b.kind == t.2 && b.checksum == t.3,
                    Err(e) => r == Err::<BillID, BillError>(e),
                }
            }),
    {
        let bl = s.len();
        if bl < 6 || bl > 13 {
            return Err(BillError::InvalidBillIDLength);
        }
        let v = chars_of(s);
        let n = v.len();
        if n < 6 {
            return Err(BillError::InvalidBillChecksum);
        }
        let last = v[n - 1];
        if !('0' <= last && last <= '9') {
            return Err(BillError::InvalidBillChecksum);
        }
        let checksum: u8 = ((last as u32) - ('0' as u32)) as u8;
        let calc = match base11_checksum(&v, 0, n - 1) {
            Ok(x) => x,
            Err(e) => {
                proof {
                    assert(v@.subrange(0, n - 1) =~= s@.take(s@.len() - 1));
                }
                return Err(e);
            },
        };
        proof {
            assert(v@.subrange(0, n - 1) =~= s@.take(s@.len() - 1));
        }
        if calc != checksum {
            return Err(BillError::InvalidBillChecksum);
        }
        let tc = v[n - 2];
        if !('0' <= tc && tc <= '9') {
            return Err(BillError::InvalidBillChecksum);
        }
        let kind = match BillType::from_u8(((tc as u32) - ('0' as u32)) as u8) {
            Some(t) => t,
            None => {
                return Err(BillError::InvalidBillType);
            },
        };
        let mut file_chars: Vec<char> = Vec::new();
        let mut i: usize = 0;
        while i < n - 5
            invariant
                i <= n - 5,
                n == v@.len(),
                n >= 6,
                file_chars@ == v@.subrange(0, i as int),
            decreases n - 5 - i,
        {
            proof {
                assert(file_chars@.push(v@[i as int]) =~= v@.subrange(0, i + 1));
            }
            file_chars.push(v[i]);
            i = i + 1;
        }
        let mut cc_chars: Vec<char> = Vec::new();
        let mut k: usize = n - 5;
        while k < n - 2
            invariant
                n - 5 <= k <= n - 2,
                n == v@.len(),
                n >= 6,
                cc_chars@ == v@.subrange(n - 5, k as int),
            decreases n - 2 - k,
        {
            proof {
                assert(cc_chars@.push(v@[k as int]) =~= v@.subrange(n - 5, k + 1));
            }
            cc_chars.push(v[k]);
            k = k + 1;
        }
        proof {
            assert(file_chars@ =~= s@.take(s@.len() - 5));
            assert(cc_chars@ =~= s@.subrange(s@.len() - 5, s@.len() - 2));
        }
        Ok(
            BillID {
                file_id: string_from_chars(&file_chars),
                company_code: string_from_chars(&cc_chars),
                kind,
                checksum,
            },
        )
    }

    /// The text form of a bill identifier: the file part, the company code
    /// padded to three places, the service type code, and the check digit.
    pub open spec fn text_spec(&self) -> Seq<char> {
        self.file_id@ + pad_code(self.company_code@) + seq![
            crate::text::digit_char(bill_type_code(self.kind)),
        ] + seq![crate::text::digit_char(self.checksum as int % 10)]
    }

    /// Builds a bill identifier from its parts, computing the check digit.
    #[verifier::loop_isolation(false)]
    pub fn new(file_id: &str, company_code: &str, kind: BillType) -> (r: Result<BillID, BillError>)
        ensures
            ({
                let body = file_id@ + pad_code(company_code@) + seq![
                    crate::text::digit_char(bill_type_code(kind)),
                ];
                match b11_checksum(body) {
                    Some(c) => r matches Ok(b) && b.file_id@ == file_id@ && b.company_code@
                        == company_code@ && b.kind == kind && b.checksum == c,
                    None => r == Err::<BillID, BillError>(BillError::InvalidDigits),
                }
            }),
    {
        let fv = chars_of(file_id);
        let cv = chars_of(company_code);
        let mut body: Vec<char> = Vec::new();
        extend_with_chars(&mut body, &fv);
        let padded = pad_code_exec(&cv);
        extend_with_chars(&mut body, &padded);
        body.push(crate::text::digit_char_of(kind.code()));
        proof {
            assert(Seq::<char>::empty() + fv@ =~= fv@);
            assert(body@.subrange(0, body@.len() as int) =~= body@);
            assert(body@ =~= file_id@ + pad_code(company_code@) + seq![
                crate::text::digit_char(bill_type_code(kind)),
            ]);
        }
        let checksum = match base11_checksum(&body, 0, body.len()) {
            Ok(x) => x,
            Err(e) => {
                return Err(e);
            },
        };
        Ok(
            BillID {
                file_id: <String as vstd::string::StringExecFns>::from_str(file_id),
                company_code: <String as vstd::string::StringExecFns>::from_str(company_code),
                kind,
                checksum,
            },
        )
    }

    /// The text form of the bill identifier.
    pub fn to_string(&self) -> (r: String)
        ensures
            r@ == self.text_spec(),
    {
        let mut out: Vec<char> = Vec::new();
        let fv = chars_of(self.file_id.as_str());
        extend_with_chars(&mut out, &fv);
        let cv = chars_of(self.company_code.as_str());
        let padded = pad_code_exec(&cv);
        extend_with_chars(&mut out, &padded);
        out.push(crate::text::digit_char_of(self.kind.code()));
        out.push(crate::text::digit_char_of(self.checksum % 10));
        proof {
            assert(Seq::<char>::empty() + fv@ =~= fv@);
            assert(out@ =~= self.text_spec());
        }
        string_from_chars(&out)
    }
}

/// A company code padded on the right with zeros to three places, as the
/// builder formats it.
pub open spec fn pad_code(s: Seq<char>) -> Seq<char> {
    if s.len() >= 3 {
        s
    } else if s.len() == 2 {
        s + seq!['0']
    } else if s.len() == 1 {
        s + seq!['0', '0']
    } else {
        seq!['0', '0', '0']
    }
}

fn pad_code_exec(v: &Vec<char>) -> (r: Vec<char>)
    ensures
        r@ == pad_code(v@),
{
    let mut r: Vec<char> = Vec::new();
    extend_with_chars(&mut r, v);
    proof {
        assert(r@ =~= v@);
    }
    if v.len() >= 3 {
        return r;
    }
    if v.len() == 2 {
        r.push('0');
        proof {
            assert(r@ =~= pad_code(v@));
        }
        return r;
    }
    if v.len() == 1 {
        r.push('0');
        r.push('0');
        proof {
            assert(r@ =~= pad_code(v@));
        }
        return r;
    }
    r.push('0');
    r.push('0');
    r.push('0');
    proof {
        assert(r@ =~= pad_code(v@));
    }
    r
}

} // verus!

verus! {

/// What parsing a payment identifier yields: the amount, the year digit, the
/// period, and the two check digits.
pub open spec fn payment_id_parse(s: Seq<char>, byte_len: int) -> Result<
    (int, int, int, int, int),
    BillError,
> {
    if byte_len < 6 || byte_len > 13 {
        Err(BillError::InvalidPaymentIDLength)
    } else if s.len() < 6 {
        Err(BillError::InvalidBillIDYear)
    } else if !is_dec_digit(s[s.len() - 2]) {
        Err(BillError::InvalidBillChecksum)
    } else {
        let checksum1 = digit_val(s[s.len() - 2]);
        match b11_checksum(s.take(s.len() - 2)) {
            None => Err(BillError::InvalidDigits),
            Some(calc) => {
                if calc != checksum1 {
                    Err(BillError::InvalidBillChecksum)
                } else {
                    match crate::text::parse_u64_spec(s.take(s.len() - 5)) {
                        None => Err(BillError::InvalidBillIDAmount),
                        Some(amount) => {
                            if !is_dec_digit(s[s.len() - 5]) {
                                Err(BillError::InvalidBillIDYear)
                            } else {
                                let year = digit_val(s[s.len() - 5]);
                                match crate::text::parse_u64_spec(
                                    s.subrange(s.len() - 4, s.len() - 2),
                                ) {
                                    None => Err(BillError::InvalidBillIDPeriod),
                                    Some(period) => {
                                        if period > 255 {
                                            Err(BillError::InvalidBillIDPeriod)
                                        } else if !is_dec_digit(s[s.len() - 1]) {
                                            Err(BillError::InvalidBillChecksum)
                                        } else {
                                            Ok(
                                                (
                                                    amount as int,
                                                    year,
                                                    period as int,
                                                    checksum1,
                                                    digit_val(s[s.len() - 1]),
                                                ),
                                            )
                                        }
                                    },
                                }
                            }
                        },
                    }
                }
            },
        }
    }
}

/// A payment identifier: the amount in thousands, the year digit, the
/// period, and two check digits, the second tying it to its bill.
#[derive(Debug, PartialEq, Eq, Clone, Copy, Hash)]
pub struct PaymentID {
    amount: u64,
    year: u8,
    period: u8,
    checksum1: u8,
    checksum2: u8,
}

/// Two-digit form of the period: padded on the left with a zero.
pub open spec fn period_digits(p: int) -> Seq<char> {
    if p < 10 {
        seq!['0'] + dec_digits(p as nat)
    } else {
        dec_digits(p as nat)
    }
}

impl PaymentID {
    /// The amount in thousands, seen from contracts.
    pub closed spec fn amount_spec(&self) -> u64 {
        self.amount
    }

    /// The year digit, seen from contracts.
    pub closed spec fn year_spec(&self) -> u8 {
        self.year
    }

    /// The period, seen from contracts.
    pub closed spec fn period_spec(&self) -> u8 {
        self.period
    }

    /// The first check digit, seen from contracts.
    pub closed spec fn checksum1_spec(&self) -> u8 {
        self.checksum1
    }

    /// The second check digit, seen from contracts.
    pub closed spec fn checksum2_spec(&self) -> u8 {
        self.checksum2
    }

    /// The text form: the amount, the year digit, the period in two places,
    /// and the two check digits.
    pub open spec fn text_spec(&self) -> Seq<char> {
        dec_digits(self.amount_spec() as nat) + dec_digits(self.year_spec() as nat)
            + period_digits(self.period_spec() as int) + seq![
            crate::text::digit_char(self.checksum1_spec() as int % 10),
        ] + seq![crate::text::digit_char(self.checksum2_spec() as int % 10)]
    }

    /// Parses a payment identifier: six to thirteen digits whose
    /// second-to-last digit is the modulo-11 check digit of the rest; only
    /// that first check digit is validated here.
    #[verifier::loop_isolation(false)]
    pub fn parse_str(s: &str) -> (r: Result<PaymentID, BillError>)
        ensures
            ({
                let bl = s.spec_bytes().len() as usize as int;
                match payment_id_parse(s@, bl) {
                    Ok(t) => r matches Ok(p) && p.amount_spec() == t.0 && p.year_spec() == t.1
                        && p.period_spec() == t.2 && p.checksum1_spec() == t.3
                        && p.checksum2_spec() == t.4,
                    Err(e) => r == Err::<PaymentID, BillError>(e),
                }
            }),
    {
        let bl = s.len();
        if bl < 6 || bl > 13 {
            return Err(BillError::InvalidPaymentIDLength);
        }
        let v = chars_of(s);
        let n = v.len();
        if n < 6 {
            return Err(BillError::InvalidBillIDYear);
        }
        let c1 = v[n - 2];
        if !('0' <= c1 && c1 <= '9') {
            return Err(BillError::InvalidBillChecksum);
        }
        let checksum1: u8 = ((c1 as u32) - ('0' as u32)) as u8;
        let calc = match base11_checksum(&v, 0, n - 2) {
            Ok(x) => x,
            Err(e) => {
                proof {
                    assert(v@.subrange(0, n - 2) =~= s@.take(s@.len() - 2));
                }
                return Err(e);
            },
        };
        proof {
            assert(v@.subrange(0, n - 2) =~= s@.take(s@.len() - 2));
        }
        if calc != checksum1 {
            return Err(BillError::InvalidBillChecksum);
        }
        let amount = match parse_u64_range(&v, 0, n - 5) {
            Some(x) => x,
            None => {
                proof {
                    assert(v@.subrange(0, n - 5) =~= s@.take(s@.len() - 5));
                }
                return Err(BillError::InvalidBillIDAmount);
            },
        };
        proof {
            assert(v@.subrange(0, n - 5) =~= s@.take(s@.len() - 5));
        }
        let yc = v[n - 5];
        if !('0' <= yc && yc <= '9') {
            return Err(BillError::InvalidBillIDYear);
        }
        let year: u8 = ((yc as u32) - ('0' as u32)) as u8;
        let period64 = match parse_u64_range(&v, n - 4, n - 2) {
            Some(x) => x,
            None => {
                proof {
                    assert(v@.subrange(n - 4, n - 2) =~= s@.subrange(s@.len() - 4, s@.len() - 2));
                }
                return Err(BillError::InvalidBillIDPeriod);
            },
        };
        proof {
            assert(v@.subrange(n - 4, n - 2) =~= s@.subrange(s@.len() - 4, s@.len() - 2));
        }
        if period64 > 255 {
            return Err(BillError::InvalidBillIDPeriod);
        }
        let period: u8 = period64 as u8;
        let c2 = v[n - 1];
        if !('0' <= c2 && c2 <= '9') {
            return Err(BillError::InvalidBillChecksum);
        }
        let checksum2: u8 = ((c2 as u32) - ('0' as u32)) as u8;
        Ok(PaymentID { amount, year, period, checksum1, checksum2 })
    }

    /// Builds a payment identifier from its parts, computing both check
    /// digits: the first over its own digits, the second over the bill
    /// identifier joined with them.
    #[verifier::loop_isolation(false)]
    pub fn new(amount: u64, year: u8, period: u8, bill_id: &BillID) -> (r: Result<
        PaymentID,
        BillError,
    >)
        ensures
            ({
                let own = dec_digits(amount as nat) + dec_digits(year as nat) + period_digits(
                    period as int,
                );
                match b11_checksum(own) {
                    None => r == Err::<PaymentID, BillError>(BillError::InvalidDigits),
                    Some(c1) => {
                        let merged = bill_id.text_spec() + own + seq![
                            crate::text::digit_char(c1 % 10),
                        ];
                        match b11_checksum(merged) {
                            None => r == Err::<PaymentID, BillError>(BillError::InvalidDigits),
                            Some(c2) => r matches Ok(p) && p.amount_spec() == amount
                                && p.year_spec() == year && p.period_spec() == period
                                && p.checksum1_spec() == c1 && p.checksum2_spec() == c2,
                        }
                    },
                }
            }),
    {
        let mut own: Vec<char> = Vec::new();
        let av = u64_to_chars(amount);
        extend_with_chars(&mut own, &av);
        let yv = u64_to_chars(year as u64);
        extend_with_chars(&mut own, &yv);
        let pv = period_digits_exec(period);
        extend_with_chars(&mut own, &pv);
        proof {
            assert(Seq::<char>::empty() + av@ =~= av@);
            assert(own@.subrange(0, own@.len() as int) =~= own@);
            assert(own@ =~= dec_digits(amount as nat) + dec_digits(year as nat) + period_digits(
                period as int,
            ));
        }
        let checksum1 = match base11_checksum(&own, 0, own.len()) {
            Ok(x) => x,
            Err(e) => {
                return Err(e);
            },
        };
        let bid = bill_id.to_string();
        let bv = chars_of(bid.as_str());
        let mut merged: Vec<char> = Vec::new();
        extend_with_chars(&mut merged, &bv);
        extend_with_chars(&mut merged, &own);
        merged.push(crate::text::digit_char_of(checksum1 % 10));
        proof {
            assert(Seq::<char>::empty() + bv@ =~= bv@);
            assert(merged@.subrange(0, merged@.len() as int) =~= merged@);
            assert(merged@ =~= bill_id.text_spec() + own@ + seq![
                crate::text::digit_char(checksum1 as int % 10),
            ]);
        }
        let checksum2 = match base11_checksum(&merged, 0, merged.len()) {
            Ok(x) => x,
            Err(e) => {
                return Err(e);
            },
        };
        Ok(PaymentID { amount, year, period, checksum1, checksum2 })
    }

    /// The amount in thousands.
    pub fn get_amount(&self) -> (r: u64)
        ensures
            r == self.amount_spec(),
    {
        self.amount
    }

    /// The year digit.
    pub fn get_year(&self) -> (r: u8)
        ensures
            r == self.year_spec(),
    {
        self.year
    }

    /// The period.
    pub fn get_period(&self) -> (r: u8)
        ensures
            r == self.period_spec(),
    {
        self.period
    }

    /// The first check digit.
    pub fn get_checksum1(&self) -> (r: u8)
        ensures
            r == self.checksum1_spec(),
    {
        self.checksum1
    }

    /// The second check digit.
    pub fn get_checksum2(&self) -> (r: u8)
        ensures
            r == self.checksum2_spec(),
    {
        self.checksum2
    }

    /// The text form of the payment identifier.
    pub fn to_string(&self) -> (r: String)
        ensures
            r@ == self.text_spec(),
    {
        let mut out: Vec<char> = Vec::new();
        let av = u64_to_chars(self.amount);
        extend_with_chars(&mut out, &av);
        let yv = u64_to_chars(self.year as u64);
        extend_with_chars(&mut out, &yv);
        let pv = period_digits_exec(self.period);
        extend_with_chars(&mut out, &pv);
        out.push(crate::text::digit_char_of(self.checksum1 % 10));
        out.push(crate::text::digit_char_of(self.checksum2 % 10));
        proof {
            assert(Seq::<char>::empty() + av@ =~= av@);
            assert(out@ =~= self.text_spec());
        }
        string_from_chars(&out)
    }
}

fn period_digits_exec(p: u8) -> (r: Vec<char>)
    ensures
        r@ == period_digits(p as int),
{
    let d = u64_to_chars(p as u64);
    if p < 10 {
        let mut r: Vec<char> = Vec::new();
        r.push('0');
        extend_with_chars(&mut r, &d);
        proof {
            assert(r@ =~= period_digits(p as int));
        }
        r
    } else {
        d
    }
}

} // verus!

verus! {

/// A barcode half padded on the left with zeros to thirteen places.
pub open spec fn pad13(t: Seq<char>) -> Seq<char> {
    if t.len() >= 13 {
        t
    } else {
        Seq::new((13 - t.len()) as nat, |i: int| '0') + t
    }
}

fn pad13_exec(v: &Vec<char>) -> (r: Vec<char>)
    ensures
        r@ == pad13(v@),
{
    let mut r: Vec<char> = Vec::new();
    let mut z: usize = v.len();
    while z < 13
        invariant
            v@.len() <= z <= 13 || (v@.len() > 13 && z == v@.len()),
            r@ =~= Seq::new((z - v@.len()) as nat, |i: int| '0'),
        decreases 13 - z,
    {
        r.push('0');
        z = z + 1;
    }
    extend_with_chars(&mut r, v);
    proof {
        assert(r@ =~= pad13(v@));
    }
    r
}

/// A bill identifier with its payment identifier; the pair is valid when the
/// second check digit covers both.
#[derive(Debug, PartialEq, Eq, Clone, Hash)]
pub struct Bill {
    pub bill_id: BillID,
    pub payment_id: PaymentID,
}

/// The joined text whose modulo-11 check digit must equal the second check
/// digit of the payment identifier.
pub open spec fn bill_merged_text(b: &Bill) -> Seq<char> {
    b.bill_id.text_spec() + b.payment_id.text_spec()
}

/// Whether the pair of identifiers belongs together.
pub open spec fn bill_pair_ok(b: &Bill) -> Result<(), BillError> {
    let merged = bill_merged_text(b);
    match b11_checksum(merged.take(merged.len() - 1)) {
        None => Err(BillError::InvalidDigits),
        Some(c) => {
            if c == b.payment_id.checksum2_spec() as int {
                Ok(())
            } else {
                Err(BillError::InvalidBillChecksum)
            }
        },
    }
}

impl Bill {
    /// Checks that the second check digit covers the joined identifiers.
    #[verifier::loop_isolation(false)]
    fn validate(&self) -> (r: Result<(), BillError>)
        ensures
            r == bill_pair_ok(self),
    {
        let mut merged = chars_of(self.bill_id.to_string().as_str());
        let pv = chars_of(self.payment_id.to_string().as_str());
        extend_with_chars(&mut merged, &pv);
        proof {
            assert(merged@ =~= bill_merged_text(self));
            assert(merged@.len() >= 1);
            assert(merged@.subrange(0, merged@.len() - 1) =~= bill_merged_text(self).take(
                bill_merged_text(self).len() - 1,
            ));
        }
        let calc = match base11_checksum(&merged, 0, merged.len() - 1) {
            Ok(x) => x,
            Err(e) => {
                return Err(e);
            },
        };
        if calc == self.payment_id.get_checksum2() {
            Ok(())
        } else {
            Err(BillError::InvalidBillChecksum)
        }
    }

    /// Pairs a bill identifier with a payment identifier, checking that the
    /// second check digit covers both.
    pub fn new(bill_id: BillID, payment_id: PaymentID) -> (r: Result<Bill, BillError>)
        ensures
            ({
                let b = Bill { bill_id, payment_id };
                match bill_pair_ok(&b) {
                    Ok(()) => r matches Ok(out) && out == b,
                    Err(e) => r == Err::<Bill, BillError>(e),
                }
            }),
    {
        let bill = Bill { bill_id, payment_id };
        match bill.validate() {
            Ok(()) => Ok(bill),
            Err(e) => Err(e),
        }
    }

    /// The amount, scaled by a thousand for rials and a hundred for tomans;
    /// the product wraps at the unsigned 64-bit boundary.
    pub fn amount(&self, currency: CurrencyType) -> (r: u64)
        ensures
            r == match currency {
                CurrencyType::Rials => vstd::wrapping::u64_specs::wrapping_mul(
                    self.payment_id.amount_spec(),
                    1000,
                ),
                CurrencyType::Tomans => vstd::wrapping::u64_specs::wrapping_mul(
                    self.payment_id.amount_spec(),
                    100,
                ),
            },
    {
        match currency {
            CurrencyType::Rials => self.payment_id.get_amount().wrapping_mul(1000),
            CurrencyType::Tomans => self.payment_id.get_amount().wrapping_mul(100),
        }
    }

    /// The service the bill pays for.
    pub fn get_bill_type(&self) -> (r: BillType)
        ensures
            r == self.bill_id.kind,
    {
        self.bill_id.kind
    }

    /// The text form of the bill identifier.
    pub fn get_bill_id(&self) -> (r: String)
        ensures
            r@ == self.bill_id.text_spec(),
    {
        self.bill_id.to_string()
    }

    /// The text form of the payment identifier.
    pub fn get_payment_id(&self) -> (r: String)
        ensures
            r@ == self.payment_id.text_spec(),
    {
        self.payment_id.to_string()
    }

    /// The barcode: both identifiers, each padded to thirteen places.
    pub fn to_string(&self) -> (r: String)
        ensures
            r@ == pad13(self.bill_id.text_spec()) + pad13(self.payment_id.text_spec()),
    {
        let bv = chars_of(self.bill_id.to_string().as_str());
        let pv = chars_of(self.payment_id.to_string().as_str());
        let mut out = pad13_exec(&bv);
        let pp = pad13_exec(&pv);
        extend_with_chars(&mut out, &pp);
        string_from_chars(&out)
    }

    /// Parses a barcode: twenty-six digits, the bill identifier in the first
    /// thirteen, the payment identifier in the last ten, the pair checked
    /// together.
    #[verifier::loop_isolation(false)]
    pub fn parse_str(barcode: &str) -> (r: Result<Bill, BillError>)
        ensures
            ({
                let s = barcode@;
                let bl = barcode.spec_bytes().len() as usize as int;
                if bl != 26 || s.len() != 26 {
                    r == Err::<Bill, BillError>(BillError::InvalidBarcodeLength)
                } else {
                    let head = s.take(13);
                    let tail = s.skip(16);
                    match bill_id_parse(head, vstd::utf8::encode_utf8(head).len() as usize as int) {
                        Err(e) => r == Err::<Bill, BillError>(e),
                        Ok(bt) => {
                            match payment_id_parse(
                                tail,
                                vstd::utf8::encode_utf8(tail).len() as usize as int,
                            ) {
                                Err(e) => r == Err::<Bill, BillError>(e),
                                Ok(pt) => {
                                    match r {
                                        Err(e) => exists|b: Bill| bill_pair_ok(&b) == Err::<
                                            (),
                                            BillError,
                                        >(e),
                                        Ok(b) => b.bill_id.file_id@ == bt.0 && b.bill_id.company_code@
                                            == bt.1 && b.bill_id.kind == bt.2 && b.bill_id.checksum
                                            == bt.3 && b.payment_id.amount_spec() == pt.0
                                            && b.payment_id.year_spec() == pt.1
                                            && b.payment_id.period_spec() == pt.2
                                            && b.payment_id.checksum1_spec() == pt.3
                                            && b.payment_id.checksum2_spec() == pt.4 && bill_pair_ok(
                                            &b,
                                        ) is Ok,
                                    }
                                },
                            }
                        },
                    }
                }
            }),
    {
        if barcode.len() != 26 {
            return Err(BillError::InvalidBarcodeLength);
        }
        let v = chars_of(barcode);
        if v.len() != 26 {
            return Err(BillError::InvalidBarcodeLength);
        }
        let mut head: Vec<char> = Vec::new();
        let mut i: usize = 0;
        while i < 13
            invariant
                i <= 13,
                v@.len() == 26,
                head@ == v@.subrange(0, i as int),
            decreases 13 - i,
        {
            proof {
                assert(head@.push(v@[i as int]) =~= v@.subrange(0, i + 1));
            }
            head.push(v[i]);
            i = i + 1;
        }
        let mut tail: Vec<char> = Vec::new();
        let mut k: usize = 16;
        while k < 26
            invariant
                16 <= k <= 26,
                v@.len() == 26,
                tail@ == v@.subrange(16, k as int),
            decreases 26 - k,
        {
            proof {
                assert(tail@.push(v@[k as int]) =~= v@.subrange(16, k + 1));
            }
            tail.push(v[k]);
            k = k + 1;
        }
        proof {
            assert(head@ =~= barcode@.take(13));
            assert(tail@ =~= barcode@.skip(16));
        }
        let head_s = string_from_chars(&head);
        let tail_s = string_from_chars(&tail);
        let bill_id = match BillID::parse_str(head_s.as_str()) {
            Ok(b) => b,
            Err(e) => {
                return Err(e);
            },
        };
        let payment_id = match PaymentID::parse_str(tail_s.as_str()) {
            Ok(p) => p,
            Err(e) => {
                return Err(e);
            },
        };
        let ghost candidate = Bill { bill_id, payment_id };
        match Bill::new(bill_id, payment_id) {
            Ok(b) => Ok(b),
            Err(e) => {
                proof {
                    assert(bill_pair_ok(&candidate) == Err::<(), BillError>(e));
                }
                Err(e)
            },
        }
    }
}

} // verus!

verus! {

impl core::str::FromStr for BillID {
    type Err = BillError;

    fn from_str(s: &str) -> Result<BillID, BillError> {
        BillID::parse_str(s)
    }
}

impl core::str::FromStr for PaymentID {
    type Err = BillError;

    fn from_str(s: &str) -> Result<PaymentID, BillError> {
        PaymentID::parse_str(s)
    }
}

impl core::str::FromStr for Bill {
    type Err = BillError;

    fn from_str(barcode: &str) -> Result<Bill, BillError> {
        Bill::parse_str(barcode)
    }
}

} // verus!
