//! The banks that account codes belong to.

use vstd::prelude::*;

verus! {

/// A bank: its name, its code, its short name, and its Persian name.
#[derive(PartialEq, Eq, Debug, Clone, Copy, Hash)]
pub struct ShebaResult {
    pub name: &'static str,
    pub code: &'static str,
    pub nickname: &'static str,
    pub persian_name: &'static str,
}

impl ShebaResult {
    /// Packs the four fields.
    pub fn new(
        name: &'static str,
        code: &'static str,
        nickname: &'static str,
        persian_name: &'static str,
    ) -> (r: ShebaResult)
        ensures
            r.name == name && r.code == code && r.nickname == nickname && r.persian_name
                == persian_name,
    {
        ShebaResult { name, code, nickname, persian_name }
    }

    /// The bank's name.
    pub fn get_name(&self) -> (r: &'static str)
        ensures
            r == self.name,
    {
        self.name
    }

    /// The bank's code.
    pub fn get_code(&self) -> (r: &'static str)
        ensures
            r == self.code,
    {
        self.code
    }

    /// The bank's short name.
    pub fn get_nickname(&self) -> (r: &'static str)
        ensures
            r == self.nickname,
    {
        self.nickname
    }

    /// The bank's Persian name.
    pub fn get_persian_name(&self) -> (r: &'static str)
        ensures
            r == self.persian_name,
    {
        self.persian_name
    }
}

/// The table row for a bank code: name, code text, short name, Persian name.
pub open spec fn bank_info_spec(code: int) -> Option<(Seq<char>, Seq<char>, Seq<char>, Seq<char>)> {
    if code == 10 {
        Some(("Central Bank of Iran"@, "010"@, "central-bank"@, "بانک مرکزی جمهوری اسلامی ایران"@))
    } else if code == 11 {
        Some(("Sanat O Madan Bank"@, "011"@, "sanat-o-madan"@, "بانک صنعت و معدن"@))
    } else if code == 12 {
        Some(("Mellat Bank"@, "012"@, "mellat"@, "بانک ملت"@))
    } else if code == 13 {
        Some(("Refah Bank"@, "013"@, "refah"@, "بانک رفاه کارگران"@))
    } else if code == 14 {
        Some(("Maskan Bank"@, "014"@, "maskan"@, "بانک مسکن"@))
    } else if code == 15 {
        Some(("Sepah Bank"@, "015"@, "sepah"@, "بانک سپه"@))
    } else if code == 16 {
        Some(("Keshavarzi"@, "016"@, "keshavarzi"@, "بانک کشاورزی"@))
    } else if code == 17 {
        Some(("Melli"@, "017"@, "melli"@, "بانک ملی ایران"@))
    } else if code == 18 {
        Some(("Tejarat Bank"@, "018"@, "tejarat"@, "بانک تجارت"@))
    } else if code == 19 {
        Some(("Saderat Bank"@, "019"@, "saderat"@, "بانک صادرات ایران"@))
    } else if code == 20 {
        Some(("Tose Saderat Bank"@, "020"@, "tosee-saderat"@, "بانک توسعه صادرات"@))
    } else if code == 21 {
        Some(("Post Bank"@, "021"@, "post"@, "پست بانک ایران"@))
    } else if code == 22 {
        Some(("Tosee Taavon Bank"@, "022"@, "toose-taavon"@, "بانک توسعه تعاون"@))
    } else if code == 51 {
        Some(("Tosee Bank"@, "051"@, "tosee"@, "موسسه اعتباری توسعه"@))
    } else if code == 52 {
        Some(("Ghavamin Bank"@, "052"@, "ghavamin"@, "بانک قوامین"@))
    } else if code == 53 {
        Some(("Karafarin Bank"@, "053"@, "karafarin"@, "بانک کارآفرین"@))
    } else if code == 54 {
        Some(("Parsian Bank"@, "054"@, "parsian"@, "بانک پارسیان"@))
    } else if code == 55 {
        Some(("Eghtesad Novin Bank"@, "055"@, "eghtesad-novin"@, "بانک اقتصاد نوین"@))
    } else if code == 56 {
        Some(("Saman Bank"@, "056"@, "saman"@, "بانک سامان"@))
    } else if code == 57 {
        Some(("Pasargad Bank"@, "057"@, "pasargad"@, "بانک پاسارگاد"@))
    } else if code == 58 {
        Some(("Sarmayeh Bank"@, "058"@, "sarmayeh"@, "بانک سرمایه"@))
    } else if code == 59 {
        Some(("Sina Bank"@, "059"@, "sina"@, "بانک سینا"@))
    } else if code == 60 {
        Some(("Mehr Iran Bank"@, "060"@, "mehr-iran"@, "بانک مهر ایران"@))
    } else if code == 61 {
        Some(("City Bank"@, "061"@, "shahr"@, "بانک شهر"@))
    } else if code == 62 {
        Some(("Ayandeh Bank"@, "062"@, "ayandeh"@, "بانک آینده"@))
    } else if code == 63 {
        Some(("Ansar Bank"@, "063"@, "ansar"@, "بانک انصار"@))
    } else if code == 64 {
        Some(("Gardeshgari Bank"@, "064"@, "gardeshgari"@, "بانک گردشگری"@))
    } else if code == 65 {
        Some(("Hekmat Iranian Bank"@, "065"@, "hekmat-iranian"@, "بانک حکمت ایرانیان"@))
    } else if code == 66 {
        Some(("Dey Bank"@, "066"@, "dey"@, "بانک دی"@))
    } else if code == 69 {
        Some(("Iran Zamin Bank"@, "069"@, "iran-zamin"@, "بانک ایران زمین"@))
    } else if code == 70 {
        Some(("Resalat Bank"@, "070"@, "resalat"@, "بانک قرض الحسنه رسالت"@))
    } else if code == 73 {
        Some(("Kosar Credit Institute"@, "073"@, "kosar"@, "موسسه اعتباری کوثر"@))
    } else if code == 75 {
        Some(("Melal Credit Institute"@, "075"@, "melal"@, "موسسه اعتباری ملل"@))
    } else if code == 78 {
        Some(("Middle East Bank"@, "078"@, "middle-east-bank"@, "بانک خاورمیانه"@))
    } else if code == 80 {
        Some(("Noor Credit Institution"@, "080"@, "noor-bank"@, "موسسه اعتباری نور"@))
    } else if code == 79 {
        Some(("Mehr Eqtesad Bank"@, "079"@, "mehr-eqtesad"@, "بانک مهر اقتصاد"@))
    } else if code == 90 {
        Some(("Mehr Iran Bank"@, "090"@, "mehr-iran"@, "بانک مهر ایران"@))
    } else if code == 95 {
        Some(("Iran and Venezuela Bank"@, "095"@, "iran-venezuela"@, "بانک ایران و ونزوئلا"@))
    } else {
        None
    }
}

/// The bank a code belongs to.
pub(crate) fn get_bank_info(code: u64) -> (r: Option<ShebaResult>)
    ensures
        match r {
            Some(b) => bank_info_spec(code as int) matches Some(t) && b.name@ == t.0 && b.code@
                == t.1 && b.nickname@ == t.2 && b.persian_name@ == t.3,
            None => bank_info_spec(code as int) is None,
        },
{
    match code {
        10 => Some(ShebaResult::new("Central Bank of Iran", "010", "central-bank", "بانک مرکزی جمهوری اسلامی ایران")),
        11 => Some(ShebaResult::new("Sanat O Madan Bank", "011", "sanat-o-madan", "بانک صنعت و معدن")),
        12 => Some(ShebaResult::new("Mellat Bank", "012", "mellat", "بانک ملت")),
        13 => Some(ShebaResult::new("Refah Bank", "013", "refah", "بانک رفاه کارگران")),
        14 => Some(ShebaResult::new("Maskan Bank", "014", "maskan", "بانک مسکن")),
        15 => Some(ShebaResult::new("Sepah Bank", "015", "sepah", "بانک سپه")),
        16 => Some(ShebaResult::new("Keshavarzi", "016", "keshavarzi", "بانک کشاورزی")),
        17 => Some(ShebaResult::new("Melli", "017", "melli", "بانک ملی ایران")),
        18 => Some(ShebaResult::new("Tejarat Bank", "018", "tejarat", "بانک تجارت")),
        19 => Some(ShebaResult::new("Saderat Bank", "019", "saderat", "بانک صادرات ایران")),
        20 => Some(ShebaResult::new("Tose Saderat Bank", "020", "tosee-saderat", "بانک توسعه صادرات")),
        21 => Some(ShebaResult::new("Post Bank", "021", "post", "پست بانک ایران")),
        22 => Some(ShebaResult::new("Tosee Taavon Bank", "022", "toose-taavon", "بانک توسعه تعاون")),
        51 => Some(ShebaResult::new("Tosee Bank", "051", "tosee", "موسسه اعتباری توسعه")),
        52 => Some(ShebaResult::new("Ghavamin Bank", "052", "ghavamin", "بانک قوامین")),
        53 => Some(ShebaResult::new("Karafarin Bank", "053", "karafarin", "بانک کارآفرین")),
        54 => Some(ShebaResult::new("Parsian Bank", "054", "parsian", "بانک پارسیان")),
        55 => Some(ShebaResult::new("Eghtesad Novin Bank", "055", "eghtesad-novin", "بانک اقتصاد نوین")),
        56 => Some(ShebaResult::new("Saman Bank", "056", "saman", "بانک سامان")),
        57 => Some(ShebaResult::new("Pasargad Bank", "057", "pasargad", "بانک پاسارگاد")),
        58 => Some(ShebaResult::new("Sarmayeh Bank", "058", "sarmayeh", "بانک سرمایه")),
        59 => Some(ShebaResult::new("Sina Bank", "059", "sina", "بانک سینا")),
        60 => Some(ShebaResult::new("Mehr Iran Bank", "060", "mehr-iran", "بانک مهر ایران")),
        61 => Some(ShebaResult::new("City Bank", "061", "shahr", "بانک شهر")),
        62 => Some(ShebaResult::new("Ayandeh Bank", "062", "ayandeh", "بانک آینده")),
        63 => Some(ShebaResult::new("Ansar Bank", "063", "ansar", "بانک انصار")),
        64 => Some(ShebaResult::new("Gardeshgari Bank", "064", "gardeshgari", "بانک گردشگری")),
        65 => Some(ShebaResult::new("Hekmat Iranian Bank", "065", "hekmat-iranian", "بانک حکمت ایرانیان")),
        66 => Some(ShebaResult::new("Dey Bank", "066", "dey", "بانک دی")),
        69 => Some(ShebaResult::new("Iran Zamin Bank", "069", "iran-zamin", "بانک ایران زمین")),
        70 => Some(ShebaResult::new("Resalat Bank", "070", "resalat", "بانک قرض الحسنه رسالت")),
        73 => Some(ShebaResult::new("Kosar Credit Institute", "073", "kosar", "موسسه اعتباری کوثر")),
        75 => Some(ShebaResult::new("Melal Credit Institute", "075", "melal", "موسسه اعتباری ملل")),
        78 => Some(ShebaResult::new("Middle East Bank", "078", "middle-east-bank", "بانک خاورمیانه")),
        80 => Some(ShebaResult::new("Noor Credit Institution", "080", "noor-bank", "موسسه اعتباری نور")),
        79 => Some(ShebaResult::new("Mehr Eqtesad Bank", "079", "mehr-eqtesad", "بانک مهر اقتصاد")),
        90 => Some(ShebaResult::new("Mehr Iran Bank", "090", "mehr-iran", "بانک مهر ایران")),
        95 => Some(ShebaResult::new("Iran and Venezuela Bank", "095", "iran-venezuela", "بانک ایران و ونزوئلا")),
        _ => None,
    }
}

} // verus!
