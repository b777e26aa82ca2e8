//! The report record of an included house, its message and CSV renderings,
//! and the order in which records are reported.
use vstd::prelude::*;
use vstd::multiset::Multiset;
use vstd::string::StringExecFns;
use crate::text::{decimal, decimal_of};

verus! {

/// A column of the report.
#[derive(Clone, Copy, PartialEq, Eq, Structural, Debug)]
pub enum Field {
    Url,
    ThousandsOfEuros,
    Floors,
    SquareMetersHouse,
    EurosPerSquareMeterHouse,
    SquareMetersTotal,
    EurosPerSquareMeterTotal,
    KmToLocationStraight,
    KmToLocationBiking,
    Year,
    InternetStrings,
}

/// Title and optional unit of a column.
#[derive(Clone, Copy, Debug)]
pub struct FieldInfo {
    pub title: &'static str,
    pub unit: Option<&'static str>,
}

/// Title and unit of each column.
pub open spec fn info_of(f: Field) -> FieldInfo {
    match f {
        Field::Url => FieldInfo { title: "URL", unit: None },
        Field::ThousandsOfEuros => FieldInfo { title: "Price", unit: Some("k€") },
        Field::Floors => FieldInfo { title: "Floors", unit: None },
        Field::SquareMetersHouse => FieldInfo { title: "Area (house)", unit: Some("m²") },
        Field::EurosPerSquareMeterHouse => FieldInfo { title: "Price/Area (house)", unit: Some("€/m²") },
        Field::SquareMetersTotal => FieldInfo { title: "Area (total)", unit: Some("m²") },
        Field::EurosPerSquareMeterTotal => FieldInfo { title: "Price/Area (total)", unit: Some("€/m²") },
        Field::KmToLocationStraight => FieldInfo { title: "Straight to location", unit: Some("km") },
        Field::KmToLocationBiking => FieldInfo { title: "Biking to location", unit: Some("km") },
        Field::Year => FieldInfo { title: "Year", unit: None },
        Field::InternetStrings => FieldInfo { title: "Internet", unit: None },
    }
}

/// Title and unit of column `f`.
pub fn field_info(f: Field) -> (r: FieldInfo)
    ensures
        r == info_of(f),
{
    match f {
        Field::Url => FieldInfo { title: "URL", unit: None },
        Field::ThousandsOfEuros => FieldInfo { title: "Price", unit: Some("k€") },
        Field::Floors => FieldInfo { title: "Floors", unit: None },
        Field::SquareMetersHouse => FieldInfo { title: "Area (house)", unit: Some("m²") },
        Field::EurosPerSquareMeterHouse => FieldInfo { title: "Price/Area (house)", unit: Some("€/m²") },
        Field::SquareMetersTotal => FieldInfo { title: "Area (total)", unit: Some("m²") },
        Field::EurosPerSquareMeterTotal => FieldInfo { title: "Price/Area (total)", unit: Some("€/m²") },
        Field::KmToLocationStraight => FieldInfo { title: "Straight to location", unit: Some("km") },
        Field::KmToLocationBiking => FieldInfo { title: "Biking to location", unit: Some("km") },
        Field::Year => FieldInfo { title: "Year", unit: None },
        Field::InternetStrings => FieldInfo { title: "Internet", unit: None },
    }
}

/// A space and the unit, or nothing for a column without one.
pub open spec fn unit_suffix(unit: Option<&'static str>) -> Seq<char> {
    match unit {
        Some(u) => " "@ + u@,
        None => Seq::empty(),
    }
}

/// One line of a message: an indented title, the value and the unit.
pub open spec fn line_of(info: FieldInfo, value: Seq<char>) -> Seq<char> {
    "\n\t"@ + info.title@ + ": "@ + value + unit_suffix(info.unit)
}

/// The line of an optional number, or nothing when it is missing.
pub open spec fn number_line(f: Field, v: Option<u64>) -> Seq<char> {
    match v {
        Some(n) => line_of(info_of(f), decimal_of(n as nat)),
        None => Seq::empty(),
    }
}

/// The header cell of a column: its title and unit.
pub open spec fn title_cell_of(info: FieldInfo) -> Seq<char> {
    info.title@ + unit_suffix(info.unit)
}

/// The cell of an optional number: the number, or empty when it is missing.
pub open spec fn number_cell(v: Option<u64>) -> Seq<char> {
    match v {
        Some(n) => decimal_of(n as nat),
        None => Seq::empty(),
    }
}

/// Each of `items` on a line of its own behind `lead`.
pub open spec fn items_of(items: Seq<String>, lead: Seq<char>) -> Seq<char>
    decreases items.len(),
{
    if items.len() == 0 {
        Seq::empty()
    } else {
        items_of(items.drop_last(), lead) + lead + items.last()@
    }
}

/// An optional `u32` widened.
pub open spec fn wide32(v: Option<u32>) -> Option<u64> {
    match v {
        Some(n) => Some(n as u64),
        None => None,
    }
}

/// An optional `u16` widened.
pub open spec fn wide16(v: Option<u16>) -> Option<u64> {
    match v {
        Some(n) => Some(n as u64),
        None => None,
    }
}

/// An optional `u8` widened.
pub open spec fn wide8(v: Option<u8>) -> Option<u64> {
    match v {
        Some(n) => Some(n as u64),
        None => None,
    }
}

fn widen32(v: Option<u32>) -> (r: Option<u64>)
    ensures
        r == wide32(v),
{
    match v {
        Some(n) => Some(n as u64),
        None => None,
    }
}

fn widen16(v: Option<u16>) -> (r: Option<u64>)
    ensures
        r == wide16(v),
{
    match v {
        Some(n) => Some(n as u64),
        None => None,
    }
}

fn widen8(v: Option<u8>) -> (r: Option<u64>)
    ensures
        r == wide8(v),
{
    match v {
        Some(n) => Some(n as u64),
        None => None,
    }
}

/// The report record of one included house.
pub struct Result {
    pub url: String,
    pub thousands_of_euros: Option<u32>,
    pub floors: Option<u8>,
    pub square_meters_house: Option<u16>,
    pub euros_per_square_meter_house: Option<u32>,
    pub square_meters_total: Option<u16>,
    pub euros_per_square_meter_total: Option<u32>,
    pub km_to_location_straight: Option<u16>,
    pub km_to_location_biking: Option<u16>,
    pub year: Option<u16>,
    pub internet_strings: Vec<String>,
}

/// The key records are reported by: price per house area, a missing one
/// counting as zero.
pub open spec fn key_of(r: Result) -> u32 {
    match r.euros_per_square_meter_house {
        Some(v) => v,
        None => 0,
    }
}

/// `rs` is in ascending order of key.
pub open spec fn sorted_by_key(rs: Seq<Result>) -> bool {
    forall|i: int, j: int| 0 <= i < j < rs.len() ==> key_of(#[trigger] rs[i]) <= key_of(#[trigger] rs[j])
}

impl Result {
    /// The message of the record: its URL, then a line for each value present.
    pub open spec fn message_of(self) -> Seq<char> {
        self.url@ + ":"@ + number_line(Field::ThousandsOfEuros, wide32(self.thousands_of_euros))
            + number_line(Field::Floors, wide8(self.floors)) + number_line(
            Field::SquareMetersHouse,
            wide16(self.square_meters_house),
        ) + number_line(Field::EurosPerSquareMeterHouse, wide32(self.euros_per_square_meter_house))
            + number_line(Field::SquareMetersTotal, wide16(self.square_meters_total)) + number_line(
            Field::EurosPerSquareMeterTotal,
            wide32(self.euros_per_square_meter_total),
        ) + number_line(Field::KmToLocationStraight, wide16(self.km_to_location_straight))
            + number_line(Field::KmToLocationBiking, wide16(self.km_to_location_biking))
            + number_line(Field::Year, wide16(self.year)) + (if self.internet_strings@.len() == 0 {
            Seq::empty()
        } else {
            line_of(info_of(Field::InternetStrings), items_of(self.internet_strings@, "\n\t- "@))
        })
    }

    /// The CSV cells of the record, one a column.
    pub open spec fn csv_row_of(self) -> Seq<Seq<char>> {
        seq![
            self.url@,
            number_cell(wide32(self.thousands_of_euros)),
            number_cell(wide8(self.floors)),
            number_cell(wide16(self.square_meters_house)),
            number_cell(wide32(self.euros_per_square_meter_house)),
            number_cell(wide16(self.square_meters_total)),
            number_cell(wide32(self.euros_per_square_meter_total)),
            number_cell(wide16(self.km_to_location_straight)),
            number_cell(wide16(self.km_to_location_biking)),
            number_cell(wide16(self.year)),
            items_of(self.internet_strings@, "\n"@),
        ]
    }

    /// A record of the given values.
    pub fn new(
        url: String,
        thousands_of_euros: Option<u32>,
        floors: Option<u8>,
        square_meters_house: Option<u16>,
        euros_per_square_meter_house: Option<u32>,
        square_meters_total: Option<u16>,
        euros_per_square_meter_total: Option<u32>,
        km_to_location_straight: Option<u16>,
        km_to_location_biking: Option<u16>,
        year: Option<u16>,
        internet_strings: Vec<String>,
    ) -> (r: Self)
        ensures
            r.url == url,
            r.thousands_of_euros == thousands_of_euros,
            r.floors == floors,
            r.square_meters_house == square_meters_house,
            r.euros_per_square_meter_house == euros_per_square_meter_house,
            r.square_meters_total == square_meters_total,
            r.euros_per_square_meter_total == euros_per_square_meter_total,
            r.km_to_location_straight == km_to_location_straight,
            r.km_to_location_biking == km_to_location_biking,
            r.year == year,
            r.internet_strings == internet_strings,
    {
        Result {
            url,
            thousands_of_euros,
            floors,
            square_meters_house,
            euros_per_square_meter_house,
            square_meters_total,
            euros_per_square_meter_total,
            km_to_location_straight,
            km_to_location_biking,
            year,
            internet_strings,
        }
    }

    /// One line of a message for a column's value.
    pub fn message_line(info: FieldInfo, value: String) -> (r: String)
        ensures
            r@ == line_of(info, value@),
    {
        let mut r: String = String::from_str("\n\t");
        r.append(info.title);
        r.append(": ");
        r.append(value.as_str());
        match info.unit {
            Some(unit) => {
                r.append(" ");
                r.append(unit);
            },
            None => {},
        }
        assert(r@ =~= line_of(info, value@));
        r
    }

    /// Appends the line of an optional number to `message`.
    fn push_number_line(message: &mut String, f: Field, v: Option<u64>)
        ensures
            final(message)@ == old(message)@ + number_line(f, v),
    {
        match v {
            Some(n) => {
                let line: String = Self::message_line(field_info(f), decimal(n));
                message.append(line.as_str());
            },
            None => {
                assert(old(message)@ + Seq::<char>::empty() =~= old(message)@);
            },
        }
    }

    /// The message of the record: its URL, then a line for each value present.
    pub fn message(&self) -> (r: String)
        ensures
            r@ == self.message_of(),
    {
        let mut message: String = self.url.clone();
        message.append(":");
        Self::push_number_line(&mut message, Field::ThousandsOfEuros, widen32(self.thousands_of_euros));
        Self::push_number_line(&mut message, Field::Floors, widen8(self.floors));
        Self::push_number_line(&mut message, Field::SquareMetersHouse, widen16(self.square_meters_house));
        Self::push_number_line(
            &mut message,
            Field::EurosPerSquareMeterHouse,
            widen32(self.euros_per_square_meter_house),
        );
        Self::push_number_line(&mut message, Field::SquareMetersTotal, widen16(self.square_meters_total));
        Self::push_number_line(
            &mut message,
            Field::EurosPerSquareMeterTotal,
            widen32(self.euros_per_square_meter_total),
        );
        Self::push_number_line(
            &mut message,
            Field::KmToLocationStraight,
            widen16(self.km_to_location_straight),
        );
        Self::push_number_line(
            &mut message,
            Field::KmToLocationBiking,
            widen16(self.km_to_location_biking),
        );
        Self::push_number_line(&mut message, Field::Year, widen16(self.year));
        let ghost before = message@;
        if self.internet_strings.len() > 0 {
            let items: String = join_items(&self.internet_strings, "\n\t- ");
            let line: String = Self::message_line(field_info(Field::InternetStrings), items);
            message.append(line.as_str());
        } else {
            assert(before + Seq::<char>::empty() =~= before);
        }
        assert(message@ =~= self.message_of());
        message
    }

    /// The header cell of a column: its title and unit.
    pub fn csv_title_row_cell(info: FieldInfo) -> (r: String)
        ensures
            r@ == title_cell_of(info),
    {
        let mut r: String = String::from_str(info.title);
        match info.unit {
            Some(unit) => {
                r.append(" ");
                r.append(unit);
            },
            None => {},
        }
        assert(r@ =~= title_cell_of(info));
        r
    }

    /// The CSV header row: each column's title and unit.
    pub fn csv_title_row() -> (r: [String; 11])
        ensures
            r@.len() == 11,
            r@[0]@ == title_cell_of(info_of(Field::Url)),
            r@[1]@ == title_cell_of(info_of(Field::ThousandsOfEuros)),
            r@[2]@ == title_cell_of(info_of(Field::Floors)),
            r@[3]@ == title_cell_of(info_of(Field::SquareMetersHouse)),
            r@[4]@ == title_cell_of(info_of(Field::EurosPerSquareMeterHouse)),
            r@[5]@ == title_cell_of(info_of(Field::SquareMetersTotal)),
            r@[6]@ == title_cell_of(info_of(Field::EurosPerSquareMeterTotal)),
            r@[7]@ == title_cell_of(info_of(Field::KmToLocationStraight)),
            r@[8]@ == title_cell_of(info_of(Field::KmToLocationBiking)),
            r@[9]@ == title_cell_of(info_of(Field::Year)),
            r@[10]@ == title_cell_of(info_of(Field::InternetStrings)),
    {
        [
            Self::csv_title_row_cell(field_info(Field::Url)),
            Self::csv_title_row_cell(field_info(Field::ThousandsOfEuros)),
            Self::csv_title_row_cell(field_info(Field::Floors)),
            Self::csv_title_row_cell(field_info(Field::SquareMetersHouse)),
            Self::csv_title_row_cell(field_info(Field::EurosPerSquareMeterHouse)),
            Self::csv_title_row_cell(field_info(Field::SquareMetersTotal)),
            Self::csv_title_row_cell(field_info(Field::EurosPerSquareMeterTotal)),
            Self::csv_title_row_cell(field_info(Field::KmToLocationStraight)),
            Self::csv_title_row_cell(field_info(Field::KmToLocationBiking)),
            Self::csv_title_row_cell(field_info(Field::Year)),
            Self::csv_title_row_cell(field_info(Field::InternetStrings)),
        ]
    }

    /// The CSV row of the record.
    pub fn csv_row(&self) -> (r: [String; 11])
        ensures
            r@.len() == 11,
            forall|i: int| 0 <= i < 11 ==> #[trigger] r@[i]@ == self.csv_row_of()[i],
    {
        let r = [
            self.url.clone(),
            number_text(widen32(self.thousands_of_euros)),
            number_text(widen8(self.floors)),
            number_text(widen16(self.square_meters_house)),
            number_text(widen32(self.euros_per_square_meter_house)),
            number_text(widen16(self.square_meters_total)),
            number_text(widen32(self.euros_per_square_meter_total)),
            number_text(widen16(self.km_to_location_straight)),
            number_text(widen16(self.km_to_location_biking)),
            number_text(widen16(self.year)),
            join_items(&self.internet_strings, "\n"),
        ];
        r
    }

    /// The key the record is reported by: price per house area, a missing
    /// one counting as zero.
    pub fn sort_key(&self) -> (r: u32)
        ensures
            r == key_of(*self),
    {
        match self.euros_per_square_meter_house {
            Some(v) => v,
            None => 0,
        }
    }
}

/// The cell of an optional number: the number, or empty when it is missing.
fn number_text(v: Option<u64>) -> (r: String)
    ensures
        r@ == number_cell(v),
{
    match v {
        Some(n) => decimal(n),
        None => String::new(),
    }
}

/// Each of `items` behind `lead`, one after another.
pub fn join_items(items: &Vec<String>, lead: &str) -> (r: String)
    ensures
        r@ == items_of(items@, lead@),
{
    let mut r: String = String::new();
    let mut i: usize = 0;
    while i < items.len()
        invariant
            i <= items@.len(),
            r@ == items_of(items@.subrange(0, i as int), lead@),
        decreases items@.len() - i,
    {
        r.append(lead);
        r.append(items[i].as_str());
        let ghost next = items@.subrange(0, i + 1);
        assert(next.drop_last() =~= items@.subrange(0, i as int));
        i = i + 1;
        assert(r@ =~= items_of(next, lead@));
    }
    assert(items@.subrange(0, items@.len() as int) =~= items@);
    r
}

/// The same records in ascending order of key.
pub fn sort_results(results: Vec<Result>) -> (r: Vec<Result>)
    ensures
        r@.to_multiset() == results@.to_multiset(),
        sorted_by_key(r@),
{
    let mut rest: Vec<Result> = results;
    let mut out: Vec<Result> = Vec::new();
    proof {
        broadcast use vstd::seq_lib::group_to_multiset_ensures;
        broadcast use vstd::multiset::lemma_multiset_empty_len;

        assert(out@.to_multiset().len() == 0);
        assert(out@.to_multiset().add(rest@.to_multiset()) =~= rest@.to_multiset());
    }
    while rest.len() > 0
        invariant
            out@.to_multiset().add(rest@.to_multiset()) == results@.to_multiset(),
            sorted_by_key(out@),
            forall|i: int, j: int|
                0 <= i < out@.len() && 0 <= j < rest@.len() ==> key_of(#[trigger] out@[i]) <= key_of(
                    #[trigger] rest@[j],
                ),
        decreases rest@.len(),
    {
        let mut best: usize = 0;
        let mut k: usize = 1;
        while k < rest.len()
            invariant
                0 <= best < rest@.len(),
                1 <= k <= rest@.len(),
                forall|j: int| 0 <= j < k ==> key_of(rest@[best as int]) <= key_of(#[trigger] rest@[j]),
            decreases rest@.len() - k,
        {
            if rest[k].sort_key() < rest[best].sort_key() {
                best = k;
            }
            k = k + 1;
        }
        let ghost before_rest = rest@;
        let ghost before_out = out@;
        let chosen: Result = rest.remove(best);
        proof {
            broadcast use vstd::seq_lib::group_to_multiset_ensures;

            assert(rest@ == before_rest.remove(best as int));
            assert(rest@.to_multiset() == before_rest.to_multiset().remove(chosen));
            assert(before_rest.to_multiset().count(chosen) > 0) by {
                assert(before_rest[best as int] == chosen);
                assert(before_rest.contains(chosen));
            }
        }
        out.push(chosen);
        proof {
            broadcast use vstd::seq_lib::group_to_multiset_ensures;

            assert(out@ == before_out.push(chosen));
            assert(out@.to_multiset() == before_out.to_multiset().insert(chosen));
            assert(out@.to_multiset().add(rest@.to_multiset()) =~= before_out.to_multiset().add(
                before_rest.to_multiset(),
            ));
            assert forall|i: int, j: int| 0 <= i < out@.len() && 0 <= j < rest@.len() implies key_of(
                #[trigger] out@[i],
            ) <= key_of(#[trigger] rest@[j]) by {
                let jj = if j < best { j } else { j + 1 };
                assert(rest@[j] == before_rest[jj]);
                if i < before_out.len() {
                    assert(out@[i] == before_out[i]);
                }
            }
            assert forall|i: int, j: int| 0 <= i < j < out@.len() implies key_of(#[trigger] out@[i])
                <= key_of(#[trigger] out@[j]) by {
                if j < before_out.len() {
                    assert(out@[i] == before_out[i]);
                    assert(out@[j] == before_out[j]);
                } else {
                    assert(out@[i] == before_out[i]);
                    assert(before_rest[best as int] == chosen);
                }
            }
        }
    }
    assert(rest@.to_multiset() =~= Multiset::empty()) by {
        broadcast use vstd::seq_lib::group_to_multiset_ensures;
        broadcast use vstd::multiset::lemma_multiset_empty_len;

        assert(rest@.to_multiset().len() == 0);
    }
    assert(out@.to_multiset().add(Multiset::empty()) =~= out@.to_multiset());
    out
}

} // verus!
