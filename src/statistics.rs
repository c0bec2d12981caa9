use vstd::prelude::*;

verus! {

/// The number of devices that share one value of a dimension.
#[derive(Debug)]
pub struct Statistic {
    pub selector: String,
    pub count: i64,
}

/// Device counts: the total, and grouped by three independent dimensions,
/// each group list in the order the backing query gives (by count, largest first).
#[derive(Debug)]
pub struct Statistics {
    pub total_count: i64,
    pub by_ios_version: Vec<Statistic>,
    pub by_electra_version: Vec<Statistic>,
    pub by_device_model: Vec<Statistic>,
}

pub struct StatisticsView {
    pub total_count: i64,
    pub by_ios_version: Seq<Statistic>,
    pub by_electra_version: Seq<Statistic>,
    pub by_device_model: Seq<Statistic>,
}

impl View for Statistics {
    type V = StatisticsView;

    open spec fn view(&self) -> StatisticsView {
        StatisticsView {
            total_count: self.total_count,
            by_ios_version: self.by_ios_version@,
            by_electra_version: self.by_electra_version@,
            by_device_model: self.by_device_model@,
        }
    }
}

impl Statistic {
    /// An equal copy.
    pub fn duplicate(&self) -> (r: Statistic)
        ensures
            r == *self,
    {
        Statistic { selector: self.selector.clone(), count: self.count }
    }
}

/// An equal copy of a list of groups.
pub fn duplicate_groups(groups: &Vec<Statistic>) -> (r: Vec<Statistic>)
    ensures
        r@ == groups@,
{
    let mut r: Vec<Statistic> = Vec::with_capacity(groups.len());
    let mut i: usize = 0;
    while i < groups.len()
        invariant
            i <= groups@.len(),
            r@ == groups@.take(i as int),
        decreases groups@.len() - i,
    {
        r.push(groups[i].duplicate());
        i = i + 1;
        assert(r@ =~= groups@.take(i as int));
    }
    assert(groups@.take(i as int) =~= groups@);
    r
}

impl Statistics {
    /// An equal copy.
    pub fn duplicate(&self) -> (r: Statistics)
        ensures
            r@ == self@,
    {
        Statistics {
            total_count: self.total_count,
            by_ios_version: duplicate_groups(&self.by_ios_version),
            by_electra_version: duplicate_groups(&self.by_electra_version),
            by_device_model: duplicate_groups(&self.by_device_model),
        }
    }
}

/// The decimal digits of a natural number, most significant first.
pub open spec fn nat_text(n: nat) -> Seq<char>
    decreases n,
{
    let digit = (('0' as u8) + (n % 10) as u8) as char;
    if n < 10 {
        seq![digit]
    } else {
        nat_text(n / 10).push(digit)
    }
}

/// The decimal text of an integer, with a leading minus sign when negative.
pub open spec fn int_text(n: int) -> Seq<char> {
    if n < 0 {
        seq!['-'] + nat_text((-n) as nat)
    } else {
        nat_text(n as nat)
    }
}

/// Relies on `i64::to_string` (its `Display` impl): the decimal text of the
/// number, a minus sign first when it is negative.
#[verifier::external_body]
fn decimal_text(n: i64) -> (r: String)
    ensures
        r@ == int_text(n as int),
{
    n.to_string()
}

/// A device count as text, in decimal.
pub fn count_text(count: i64) -> (r: String)
    ensures
        r@ == int_text(count as int),
{
    decimal_text(count)
}

/// The script that publishes the device count to a web page:
/// `window.num_devices=<count>;`.
pub fn count_script(count: i64) -> (r: String)
    ensures
        r@ == "window.num_devices="@ + int_text(count as int) + ";"@,
{
    let mut script = String::from_str("window.num_devices=");
    let digits = decimal_text(count);
    script.append(digits.as_str());
    script.append(";");
    script
}

} // verus!
