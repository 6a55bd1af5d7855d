//! The mobile operators, their codes, and the details of each code.

use vstd::prelude::*;
use crate::text::chars_of;
use crate::text::eq_str;
use crate::phone_number::get_operator_prefix;
use crate::phone_number::is_phone_valid;
use crate::phone_number::PhoneNumberError;

verus! {

/// A mobile operator.
#[derive(Debug, Copy, Clone, PartialEq, Hash, Eq, Structural)]
pub enum Operator {
    ShatelMobile,
    MCI,
    Irancell,
    Taliya,
    RightTel,
}

/// How a subscription is paid.
#[derive(Debug, Copy, Clone, PartialEq, Hash, Eq, Structural)]
pub enum SimType {
    Permanent,
    Credit,
}

/// What is known of one operator code: its home base, the provinces it also
/// serves, the subscription kinds sold under it, its operator, and a special
/// product name where there is one.
#[derive(Debug, Clone, PartialEq, Eq, Hash)]
pub struct OperatorDetails {
    base: &'static str,
    province: Vec<&'static str>,
    model: Option<&'static str>,
    operator: Operator,
    sim_types: Vec<SimType>,
}

impl OperatorDetails {
    /// The operator, seen from contracts.
    pub closed spec fn operator_spec(&self) -> Operator {
        self.operator
    }

    /// The home base, seen from contracts.
    pub closed spec fn base_spec(&self) -> &'static str {
        self.base
    }

    /// Packs the details of one operator code.
    pub fn new(
        base: &'static str,
        province: Vec<&'static str>,
        sim_types: Vec<SimType>,
        operator: Operator,
        model: Option<&'static str>,
    ) -> (r: OperatorDetails)
        ensures
            r.operator_spec() == operator,
            r.base_spec() == base,
    {
        OperatorDetails { base, province, model, operator, sim_types }
    }

    /// The provinces the code also serves.
    pub fn province_list(&self) -> &Vec<&'static str> {
        &self.province
    }

    /// The home base.
    pub fn base(&self) -> (r: &'static str)
        ensures
            r == self.base_spec(),
    {
        self.base
    }

    /// The special product name, where there is one.
    pub fn model(&self) -> Option<&'static str> {
        self.model
    }

    /// The operator.
    pub fn operator(&self) -> (r: Operator)
        ensures
            r == self.operator_spec(),
    {
        self.operator
    }

    /// The subscription kinds sold under the code.
    pub fn sim_type_list(&self) -> &Vec<SimType> {
        &self.sim_types
    }
}

/// The operator codes of MCI, each with its details.
pub fn mci() -> Vec<(&'static str, OperatorDetails)> {
    let mut t: Vec<(&'static str, OperatorDetails)> = Vec::new();
    t.push((
        "910",
        OperatorDetails::new("کشوری", vec![], vec![SimType::Permanent, SimType::Credit], Operator::MCI, None),
    ));
    t.push((
        "914",
        OperatorDetails::new("آذربایجان غربی", vec!["آذربایجان شرقی", "اردبیل", "اصفهان"], vec![SimType::Permanent, SimType::Credit], Operator::MCI, None),
    ));
    t.push((
        "911",
        OperatorDetails::new("مازندران", vec!["گلستان", "گیلان"], vec![SimType::Permanent, SimType::Credit], Operator::MCI, None),
    ));
    t.push((
        "912",
        OperatorDetails::new("تهران", vec!["البرز", "زنجان", "سمنان", "قزوین", "قم", "برخی از شهرستان های استان مرکزی"], vec![SimType::Permanent], Operator::MCI, None),
    ));
    t.push((
        "913",
        OperatorDetails::new("اصفهان", vec!["یزد", "چهارمحال و بختیاری", "کرمان"], vec![SimType::Permanent, SimType::Credit], Operator::MCI, None),
    ));
    t.push((
        "915",
        OperatorDetails::new("خراسان رضوی", vec!["خراسان شمالی", "خراسان جنوبی", "سیستان و بلوچستان"], vec![SimType::Permanent, SimType::Credit], Operator::MCI, None),
    ));
    t.push((
        "916",
        OperatorDetails::new("خوزستان", vec!["لرستان", "فارس", "اصفهان"], vec![SimType::Permanent, SimType::Credit], Operator::MCI, None),
    ));
    t.push((
        "917",
        OperatorDetails::new("فارس", vec!["بوشهر", "کهگیلویه و بویر احمد", "هرمزگان"], vec![SimType::Permanent, SimType::Credit], Operator::MCI, None),
    ));
    t.push((
        "918",
        OperatorDetails::new("کرمانشاه", vec!["کردستان", "ایلام", "همدان"], vec![SimType::Permanent, SimType::Credit], Operator::MCI, None),
    ));
    t.push((
        "919",
        OperatorDetails::new("تهران", vec!["البرز", "سمنان", "قم", "قزوین", "زنجان"], vec![SimType::Credit], Operator::MCI, None),
    ));
    t.push((
        "990",
        OperatorDetails::new("کشوری", vec![], vec![SimType::Credit], Operator::MCI, None),
    ));
    t.push((
        "991",
        OperatorDetails::new("کشوری", vec![], vec![SimType::Permanent, SimType::Credit], Operator::MCI, None),
    ));
    t.push((
        "992",
        OperatorDetails::new("کشوری", vec![], vec![SimType::Credit], Operator::MCI, None),
    ));
    t.push((
        "993",
        OperatorDetails::new("کشوری", vec![], vec![SimType::Credit], Operator::MCI, None),
    ));
    t.push((
        "994",
        OperatorDetails::new("کشوری", vec![], vec![SimType::Credit], Operator::MCI, None),
    ));
    t.push((
        "995",
        OperatorDetails::new("کشوری", vec![], vec![SimType::Permanent, SimType::Credit], Operator::MCI, None),
    ));
    t.push((
        "996",
        OperatorDetails::new("کشوری", vec![], vec![SimType::Permanent, SimType::Credit], Operator::MCI, None),
    ));
    t
}

/// The operator codes of Taliya, each with its details.
pub fn talia() -> Vec<(&'static str, OperatorDetails)> {
    let mut t: Vec<(&'static str, OperatorDetails)> = Vec::new();
    t.push((
        "932",
        OperatorDetails::new("کشوری", vec![], vec![SimType::Credit], Operator::Taliya, None),
    ));
    t
}

/// The operator codes of RightTel, each with its details.
pub fn right_tel() -> Vec<(&'static str, OperatorDetails)> {
    let mut t: Vec<(&'static str, OperatorDetails)> = Vec::new();
    t.push((
        "920",
        OperatorDetails::new("کشوری", vec![], vec![SimType::Permanent], Operator::RightTel, None),
    ));
    t.push((
        "921",
        OperatorDetails::new("کشوری", vec![], vec![SimType::Credit], Operator::RightTel, None),
    ));
    t.push((
        "922",
        OperatorDetails::new("کشوری", vec![], vec![SimType::Credit], Operator::RightTel, None),
    ));
    t.push((
        "923",
        OperatorDetails::new("کشوری", vec![], vec![SimType::Credit], Operator::RightTel, None),
    ));
    t
}

/// The operator codes of Irancell, each with its details.
pub fn irancell() -> Vec<(&'static str, OperatorDetails)> {
    let mut t: Vec<(&'static str, OperatorDetails)> = Vec::new();
    t.push((
        "930",
        OperatorDetails::new("کشوری", vec![], vec![SimType::Credit, SimType::Permanent], Operator::Irancell, None),
    ));
    t.push((
        "933",
        OperatorDetails::new("کشوری", vec![], vec![SimType::Credit, SimType::Permanent], Operator::Irancell, None),
    ));
    t.push((
        "935",
        OperatorDetails::new("کشوری", vec![], vec![SimType::Credit, SimType::Permanent], Operator::Irancell, None),
    ));
    t.push((
        "936",
        OperatorDetails::new("کشوری", vec![], vec![SimType::Credit, SimType::Permanent], Operator::Irancell, None),
    ));
    t.push((
        "937",
        OperatorDetails::new("کشوری", vec![], vec![SimType::Credit, SimType::Permanent], Operator::Irancell, None),
    ));
    t.push((
        "938",
        OperatorDetails::new("کشوری", vec![], vec![SimType::Credit, SimType::Permanent], Operator::Irancell, None),
    ));
    t.push((
        "939",
        OperatorDetails::new("کشوری", vec![], vec![SimType::Credit, SimType::Permanent], Operator::Irancell, None),
    ));
    t.push((
        "901",
        OperatorDetails::new("کشوری", vec![], vec![SimType::Credit, SimType::Permanent], Operator::Irancell, None),
    ));
    t.push((
        "902",
        OperatorDetails::new("کشوری", vec![], vec![SimType::Credit, SimType::Permanent], Operator::Irancell, None),
    ));
    t.push((
        "903",
        OperatorDetails::new("کشوری", vec![], vec![SimType::Credit, SimType::Permanent], Operator::Irancell, None),
    ));
    t.push((
        "905",
        OperatorDetails::new("کشوری", vec![], vec![SimType::Credit, SimType::Permanent], Operator::Irancell, None),
    ));
    t.push((
        "900",
        OperatorDetails::new("کشوری", vec![], vec![SimType::Credit, SimType::Permanent], Operator::Irancell, None),
    ));
    t.push((
        "904",
        OperatorDetails::new("کشوری", vec![], vec![SimType::Credit], Operator::Irancell, Some("سیم‌کارت کودک")),
    ));
    t.push((
        "941",
        OperatorDetails::new("کشوری", vec![], vec![SimType::Credit], Operator::Irancell, Some("TD-LTE")),
    ));
    t
}

/// The operator codes of ShatelMobile, each with its details.
pub fn shatel_mobile() -> Vec<(&'static str, OperatorDetails)> {
    let mut t: Vec<(&'static str, OperatorDetails)> = Vec::new();
    t.push((
        "998",
        OperatorDetails::new("کشوری", vec![], vec![SimType::Credit], Operator::ShatelMobile, None),
    ));
    t
}

impl Operator {
    /// The details table this operator answers for. The right-tel arm
    /// answers with the taliya table, as this lookup always has.
    pub fn details(&self) -> Vec<(&'static str, OperatorDetails)> {
        match self {
            Operator::MCI => mci(),
            Operator::Taliya => talia(),
            Operator::RightTel => talia(),
            Operator::Irancell => irancell(),
            Operator::ShatelMobile => shatel_mobile(),
        }
    }
}

/// Every operator code with its details, in table order.
pub fn all_operators() -> Vec<(&'static str, OperatorDetails)> {
    let mut t = mci();
    append_details(&mut t, talia());
    append_details(&mut t, right_tel());
    append_details(&mut t, irancell());
    append_details(&mut t, shatel_mobile());
    t
}

fn append_details(
    dst: &mut Vec<(&'static str, OperatorDetails)>,
    src: Vec<(&'static str, OperatorDetails)>,
) {
    let mut s = src;
    while s.len() > 0
        decreases s@.len(),
    {
        let entry = s.remove(0);
        dst.push(entry);
    }
}

/// Every known operator code.
pub fn prefixes() -> Vec<&'static str> {
    let all = all_operators();
    let mut r: Vec<&'static str> = Vec::new();
    let mut i: usize = 0;
    while i < all.len()
        decreases all@.len() - i,
    {
        r.push(all[i].0);
        i = i + 1;
    }
    r
}

/// The details of one operator code; an unknown code is the prefix error,
/// naming the code.
pub fn get_prefix_details(prefix: &str) -> (r: Result<OperatorDetails, PhoneNumberError>)
    ensures
        r matches Err(e) ==> (e matches PhoneNumberError::InvalidPrefix(t) && t@ == prefix@),
{
    let mut all = all_operators();
    let p = chars_of(prefix);
    let n = all.len();
    let mut i: usize = 0;
    while i < n
        invariant
            n == all@.len(),
            i <= n,
        decreases n - i,
    {
        if eq_str(&p, all[i].0) {
            let entry = all.remove(i);
            return Ok(entry.1);
        }
        i = i + 1;
    }
    Err(PhoneNumberError::InvalidPrefix(<String as vstd::string::StringExecFns>::from_str(prefix)))
}

/// The details of the operator code of a valid number.
pub fn get_phone_details(phone_number: &str) -> (r: Result<OperatorDetails, PhoneNumberError>) {
    match is_phone_valid(phone_number) {
        Ok(()) => (),
        Err(e) => {
            return Err(e);
        },
    }
    let prefix = match get_operator_prefix(phone_number) {
        Ok(p) => p,
        Err(e) => {
            return Err(e);
        },
    };
    get_prefix_details(prefix)
}

} // verus!
