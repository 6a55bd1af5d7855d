//! The bank each card-number prefix belongs to.

pub mod errors;

pub use errors::BankNameByCardNumberError;

use vstd::prelude::*;
use vstd::string::StringSliceAdditionalSpecFns;
use crate::text::chars_of;
use crate::text::eq_str;

verus! {

/// The bank a six-digit card prefix belongs to.
pub open spec fn bank_of_prefix(t: Seq<char>) -> Option<Seq<char>> {
    if t == "603799"@ {
        Some("بانک ملی ایران"@)
    } else if t == "589210"@ {
        Some("بانک سپه"@)
    } else if t == "627648"@ {
        Some("بانک توسعه صادرات"@)
    } else if t == "627961"@ {
        Some("بانک صنعت و معدن"@)
    } else if t == "603770"@ {
        Some("بانک کشاورزی"@)
    } else if t == "628023"@ {
        Some("بانک مسکن"@)
    } else if t == "627760"@ {
        Some("پست بانک ایران"@)
    } else if t == "502908"@ {
        Some("بانک توسعه تعاون"@)
    } else if t == "627412"@ {
        Some("بانک اقتصاد نوین"@)
    } else if t == "622106"@ {
        Some("بانک پارسیان"@)
    } else if t == "639194"@ {
        Some("بانک پارسیان"@)
    } else if t == "627884"@ {
        Some("بانک پارسیان"@)
    } else if t == "502229"@ {
        Some("بانک پاسارگاد"@)
    } else if t == "639347"@ {
        Some("بانک پاسارگاد"@)
    } else if t == "639599"@ {
        Some("بانک قوامین"@)
    } else if t == "504172"@ {
        Some("بانک رسالت"@)
    } else if t == "627488"@ {
        Some("بانک کارآفرین"@)
    } else if t == "502910"@ {
        Some("بانک کارآفرین"@)
    } else if t == "603769"@ {
        Some("بانک صادرات"@)
    } else if t == "610433"@ {
        Some("بانک ملت"@)
    } else if t == "991975"@ {
        Some("بانک ملت"@)
    } else if t == "589463"@ {
        Some("بانک رفاه"@)
    } else if t == "502938"@ {
        Some("بانک دی"@)
    } else if t == "639607"@ {
        Some("بانک سرمایه"@)
    } else if t == "627381"@ {
        Some("بانک انصار"@)
    } else if t == "505785"@ {
        Some("بانک ایران زمین"@)
    } else if t == "636214"@ {
        Some("بانک آینده"@)
    } else if t == "636949"@ {
        Some("بانک حکمت ایرانیان"@)
    } else if t == "621986"@ {
        Some("بانک سامان"@)
    } else if t == "639346"@ {
        Some("بانک سینا"@)
    } else if t == "606373"@ {
        Some("بانک قرض الحسنه مهر ایران"@)
    } else if t == "627353"@ {
        Some("بانک تجارت"@)
    } else if t == "585983"@ {
        Some("بانک تجارت"@)
    } else if t == "502806"@ {
        Some("بانک شهر"@)
    } else if t == "504706"@ {
        Some("بانک شهر"@)
    } else if t == "585947"@ {
        Some("بانک خاورمیانه"@)
    } else if t == "505416"@ {
        Some("بانک گردشگری"@)
    } else {
        None
    }
}

fn bank_code_lookup(t: Vec<char>) -> (r: Option<&'static str>)
    ensures
        match r {
            Some(c) => bank_of_prefix(t@) matches Some(x) && c@ == x,
            None => bank_of_prefix(t@) is None,
        },
{
    if eq_str(&t, "603799") {
        return Some("بانک ملی ایران");
    }
    if eq_str(&t, "589210") {
        return Some("بانک سپه");
    }
    if eq_str(&t, "627648") {
        return Some("بانک توسعه صادرات");
    }
    if eq_str(&t, "627961") {
        return Some("بانک صنعت و معدن");
    }
    if eq_str(&t, "603770") {
        return Some("بانک کشاورزی");
    }
    if eq_str(&t, "628023") {
        return Some("بانک مسکن");
    }
    if eq_str(&t, "627760") {
        return Some("پست بانک ایران");
    }
    if eq_str(&t, "502908") {
        return Some("بانک توسعه تعاون");
    }
    if eq_str(&t, "627412") {
        return Some("بانک اقتصاد نوین");
    }
    if eq_str(&t, "622106") {
        return Some("بانک پارسیان");
    }
    if eq_str(&t, "639194") {
        return Some("بانک پارسیان");
    }
    if eq_str(&t, "627884") {
        return Some("بانک پارسیان");
    }
    if eq_str(&t, "502229") {
        return Some("بانک پاسارگاد");
    }
    if eq_str(&t, "639347") {
        return Some("بانک پاسارگاد");
    }
    if eq_str(&t, "639599") {
        return Some("بانک قوامین");
    }
    if eq_str(&t, "504172") {
        return Some("بانک رسالت");
    }
    if eq_str(&t, "627488") {
        return Some("بانک کارآفرین");
    }
    if eq_str(&t, "502910") {
        return Some("بانک کارآفرین");
    }
    if eq_str(&t, "603769") {
        return Some("بانک صادرات");
    }
    if eq_str(&t, "610433") {
        return Some("بانک ملت");
    }
    if eq_str(&t, "991975") {
        return Some("بانک ملت");
    }
    if eq_str(&t, "589463") {
        return Some("بانک رفاه");
    }
    if eq_str(&t, "502938") {
        return Some("بانک دی");
    }
    if eq_str(&t, "639607") {
        return Some("بانک سرمایه");
    }
    if eq_str(&t, "627381") {
        return Some("بانک انصار");
    }
    if eq_str(&t, "505785") {
        return Some("بانک ایران زمین");
    }
    if eq_str(&t, "636214") {
        return Some("بانک آینده");
    }
    if eq_str(&t, "636949") {
        return Some("بانک حکمت ایرانیان");
    }
    if eq_str(&t, "621986") {
        return Some("بانک سامان");
    }
    if eq_str(&t, "639346") {
        return Some("بانک سینا");
    }
    if eq_str(&t, "606373") {
        return Some("بانک قرض الحسنه مهر ایران");
    }
    if eq_str(&t, "627353") {
        return Some("بانک تجارت");
    }
    if eq_str(&t, "585983") {
        return Some("بانک تجارت");
    }
    if eq_str(&t, "502806") {
        return Some("بانک شهر");
    }
    if eq_str(&t, "504706") {
        return Some("بانک شهر");
    }
    if eq_str(&t, "585947") {
        return Some("بانک خاورمیانه");
    }
    if eq_str(&t, "505416") {
        return Some("بانک گردشگری");
    }
    None
}

/// The bank a card number belongs to, read off its first six digits. A card
/// number may be cut short, but at least six bytes must be there; an unknown
/// prefix names no bank.
#[verifier::loop_isolation(false)]
pub fn get_bank_name_by_card_number(digits: &str) -> (r: Result<
    &'static str,
    BankNameByCardNumberError,
>)
    ensures
        ({
            let bl = digits.spec_bytes().len() as usize as int;
            if bl >= 6 {
                if digits@.len() >= 6 {
                    match bank_of_prefix(digits@.take(6)) {
                        Some(x) => r matches Ok(c) && c@ == x,
                        None => r matches Err(e) && e matches
                            BankNameByCardNumberError::NotFound(t) && t@ == digits@,
                    }
                } else {
                    r matches Err(e) && e matches BankNameByCardNumberError::NotFound(t) && t@
                        == digits@
                }
            } else {
                r matches Err(e) && e matches BankNameByCardNumberError::TooShort(t, n) && t@
                    == digits@ && n == bl
            }
        }),
{
    let bl = digits.len();
    let v = chars_of(digits);
    if bl >= 6 {
        if v.len() < 6 {
            return Err(
                BankNameByCardNumberError::NotFound(
                    <String as vstd::string::StringExecFns>::from_str(digits),
                ),
            );
        }
        let mut t: Vec<char> = Vec::new();
        let mut i: usize = 0;
        while i < 6
            invariant
                i <= 6,
                v@.len() >= 6,
                t@ == v@.subrange(0, i as int),
            decreases 6 - i,
        {
            proof {
                assert(t@.push(v@[i as int]) =~= v@.subrange(0, i + 1));
            }
            t.push(v[i]);
            i = i + 1;
        }
        proof {
            assert(t@ =~= digits@.take(6));
        }
        match bank_code_lookup(t) {
            Some(x) => Ok(x),
            None => Err(
                BankNameByCardNumberError::NotFound(
                    <String as vstd::string::StringExecFns>::from_str(digits),
                ),
            ),
        }
    } else {
        Err(
            BankNameByCardNumberError::TooShort(
                <String as vstd::string::StringExecFns>::from_str(digits),
                bl,
            ),
        )
    }
}

} // verus!
