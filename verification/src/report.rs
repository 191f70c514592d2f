//! The report: the lines shown for a response, in their fixed order.
//!
//! A line is a sequence of pieces. A piece is either a text, which the
//! library writes out in full, or a measured quantity together with the way
//! it is to be shown: as it is, or with one decimal place. How a quantity
//! reads as text is left to the caller, who hands the texts back to
//! `Line::text` to get the line as it is printed.

use crate::json::JsonNumber;
use crate::model::{
    forecast_day_views, AirQuality, AirQualityView, Current, CurrentView, ForecastDay,
    ForecastDayView, Location, LocationView, Quantity, WeatherData, WeatherDataView,
};
use crate::tables::{aqi_label, epa_label_or_fallback, wind_arrow, wind_glyph_or_fallback};
use crate::text::{decimal_text, int_digits};
use vstd::prelude::*;
use vstd::string::StringExecFns;

verus! {

/// One piece of a line.
#[derive(Debug, Clone, PartialEq, Eq)]
pub enum Piece {
    /// A text, shown as it is.
    Text(String),
    /// A quantity, shown in its plain form.
    Plain(Quantity),
    /// A quantity, shown rounded to one decimal place.
    Tenths(Quantity),
}

/// What a `Piece` holds.
pub ghost enum PieceView {
    Text(Seq<char>),
    Plain(JsonNumber),
    Tenths(JsonNumber),
}

impl View for Piece {
    type V = PieceView;

    open spec fn view(&self) -> PieceView {
        match self {
            Piece::Text(t) => PieceView::Text(t@),
            Piece::Plain(q) => PieceView::Plain(q@),
            Piece::Tenths(q) => PieceView::Tenths(q@),
        }
    }
}

/// One line of the report.
#[derive(Debug, Clone, PartialEq, Eq)]
pub struct Line {
    pub pieces: Vec<Piece>,
}

impl View for Line {
    type V = Seq<PieceView>;

    open spec fn view(&self) -> Seq<PieceView> {
        Seq::new(self.pieces@.len(), |i: int| self.pieces@[i]@)
    }
}

/// The views of a sequence of lines, one by one.
pub open spec fn line_views(lines: Seq<Line>) -> Seq<Seq<PieceView>> {
    Seq::new(lines.len(), |i: int| lines[i]@)
}

/// The rule that opens and closes the report: seventy dashes between angle
/// brackets.
pub open spec fn separator_text() -> Seq<char> {
    "<>"@ + Seq::new(70, |i: int| '-') + "<>"@
}

/// The line of the rule.
pub open spec fn separator_line() -> Seq<PieceView> {
    seq![PieceView::Text(separator_text())]
}

/// The line that names the place.
pub open spec fn place_line(l: LocationView) -> Seq<PieceView> {
    seq![
        PieceView::Text(l.name),
        PieceView::Text(" ("@),
        PieceView::Text(l.region),
        PieceView::Text(", "@),
        PieceView::Text(l.country),
        PieceView::Text(")"@),
    ]
}

/// The line of the local time.
pub open spec fn local_time_line(l: LocationView) -> Seq<PieceView> {
    seq![PieceView::Text("Local Time: "@), PieceView::Text(l.localtime)]
}

/// The line of the present condition, temperature and UV index.
pub open spec fn condition_line(c: CurrentView) -> Seq<PieceView> {
    seq![
        PieceView::Text(c.condition.text),
        PieceView::Text(" | "@),
        PieceView::Plain(c.temp_c),
        PieceView::Text("°C / "@),
        PieceView::Plain(c.temp_f),
        PieceView::Text("°F\tUV: "@),
        PieceView::Plain(c.uv),
    ]
}

/// The line of the felt temperature, the humidity and the precipitation.
pub open spec fn feels_like_line(c: CurrentView) -> Seq<PieceView> {
    seq![
        PieceView::Text("Feels like: "@),
        PieceView::Plain(c.feelslike_c),
        PieceView::Text("°C / "@),
        PieceView::Plain(c.feelslike_f),
        PieceView::Text("°F\tHumidity: "@),
        PieceView::Text(int_digits(c.humidity as int)),
        PieceView::Text("%\tPrecip: "@),
        PieceView::Plain(c.precip_mm),
        PieceView::Text(" mm"@),
    ]
}

/// The line of the wind and the dew point. The arrow comes from the table
/// of wind arrows.
pub open spec fn wind_line(c: CurrentView) -> Seq<PieceView> {
    seq![
        PieceView::Text("Wind: "@),
        PieceView::Text(wind_glyph_or_fallback(c.wind_dir)),
        PieceView::Text(" "@),
        PieceView::Plain(c.wind_kph),
        PieceView::Text("kph / "@),
        PieceView::Plain(c.wind_mph),
        PieceView::Text("mph \tDew Point: "@),
        PieceView::Plain(c.dewpoint_c),
        PieceView::Text("°C / "@),
        PieceView::Plain(c.dewpoint_f),
        PieceView::Text("°F"@),
    ]
}

/// The line of the air quality. The label comes from the table of US EPA
/// labels; the two concentrations are shown with one decimal place.
pub open spec fn air_quality_line(a: AirQualityView) -> Seq<PieceView> {
    seq![
        PieceView::Text("AQI: "@),
        PieceView::Text(epa_label_or_fallback(a.us_epa_index)),
        PieceView::Text("\tPM2.5: "@),
        PieceView::Tenths(a.pm2_5),
        PieceView::Text(" μg/m³\tPM10: "@),
        PieceView::Tenths(a.pm10),
        PieceView::Text(" μg/m³"@),
    ]
}

/// The line that heads the forecast.
pub open spec fn forecast_header_line() -> Seq<PieceView> {
    seq![PieceView::Text("▶ Forecast:"@)]
}

/// The line of one day of the forecast.
pub open spec fn day_line(d: ForecastDayView) -> Seq<PieceView> {
    seq![
        PieceView::Text("  - "@),
        PieceView::Text(d.date),
        PieceView::Text(": "@),
        PieceView::Plain(d.day.maxtemp_c),
        PieceView::Text("°C / "@),
        PieceView::Plain(d.day.maxtemp_f),
        PieceView::Text("°F, "@),
        PieceView::Text(d.day.condition.text),
        PieceView::Text(" (Precip: "@),
        PieceView::Plain(d.day.totalprecip_mm),
        PieceView::Text(" mm, UV: "@),
        PieceView::Plain(d.day.uv),
        PieceView::Text(")"@),
    ]
}

/// The lines above the forecast: the rule, the place and its local time, the
/// present conditions, the air quality, and the header of the forecast, with
/// the empty lines that set them apart.
pub open spec fn head_lines(w: WeatherDataView) -> Seq<Seq<PieceView>> {
    seq![
        separator_line(),
        place_line(w.location),
        local_time_line(w.location),
        Seq::empty(),
        condition_line(w.current),
        Seq::empty(),
        feels_like_line(w.current),
        wind_line(w.current),
        air_quality_line(w.current.air_quality),
        Seq::empty(),
        forecast_header_line(),
    ]
}

/// The lines of the days of the forecast, one for each, in their order.
pub open spec fn day_lines(days: Seq<ForecastDayView>) -> Seq<Seq<PieceView>> {
    Seq::new(days.len(), |i: int| day_line(days[i]))
}

/// The whole report: the head, a line for each day of the forecast, and the
/// closing rule.
pub open spec fn report_of(w: WeatherDataView) -> Seq<Seq<PieceView>> {
    head_lines(w) + day_lines(w.forecast.forecastday) + seq![separator_line()]
}

/// How many quantities the pieces hold.
pub open spec fn quantity_count(pieces: Seq<PieceView>) -> nat
    decreases pieces.len(),
{
    if pieces.len() == 0 {
        0
    } else if pieces.last() is Text {
        quantity_count(pieces.drop_last())
    } else {
        quantity_count(pieces.drop_last()) + 1
    }
}

/// The text of a line, given the texts of its quantities in their order:
/// every piece in turn, a text as it is and a quantity as the text given for
/// it. There is no such text where the texts given are not as many as the
/// quantities.
pub open spec fn spliced(pieces: Seq<PieceView>, shown: Seq<Seq<char>>) -> Option<Seq<char>>
    decreases pieces.len(),
{
    if pieces.len() == 0 {
        if shown.len() == 0 {
            Some(Seq::empty())
        } else {
            None
        }
    } else {
        match pieces.last() {
            PieceView::Text(t) => match spliced(pieces.drop_last(), shown) {
                Some(s) => Some(s + t),
                None => None,
            },
            _ => if shown.len() == 0 {
                None
            } else {
                match spliced(pieces.drop_last(), shown.drop_last()) {
                    Some(s) => Some(s + shown.last()),
                    None => None,
                }
            },
        }
    }
}

/// The views of a sequence of texts, one by one.
pub open spec fn text_views(texts: Seq<String>) -> Seq<Seq<char>> {
    Seq::new(texts.len(), |i: int| texts[i]@)
}

/// A line has a text exactly where one text is given for each quantity.
pub proof fn lemma_spliced_needs_one_text_each(pieces: Seq<PieceView>, shown: Seq<Seq<char>>)
    ensures
        spliced(pieces, shown) is Some <==> quantity_count(pieces) == shown.len(),
    decreases pieces.len(),
{
    if pieces.len() > 0 {
        if pieces.last() is Text {
            lemma_spliced_needs_one_text_each(pieces.drop_last(), shown);
        } else if shown.len() > 0 {
            lemma_spliced_needs_one_text_each(pieces.drop_last(), shown.drop_last());
        }
    }
}

/// A part of a line holds no more quantities than the whole line.
proof fn lemma_count_of_prefix(pieces: Seq<PieceView>, n: int)
    requires
        0 <= n <= pieces.len(),
    ensures
        quantity_count(pieces.subrange(0, n)) <= quantity_count(pieces),
    decreases pieces.len(),
{
    if n < pieces.len() {
        lemma_count_of_prefix(pieces.drop_last(), n);
        assert(pieces.drop_last().subrange(0, n) =~= pieces.subrange(0, n));
    } else {
        assert(pieces.subrange(0, n) =~= pieces);
    }
}

fn text_piece(t: &str) -> (r: Piece)
    ensures
        r@ == PieceView::Text(t@),
{
    Piece::Text(t.to_owned())
}

fn plain_piece(q: &Quantity) -> (r: Piece)
    ensures
        r@ == PieceView::Plain(q@),
{
    Piece::Plain(q.clone())
}

fn tenths_piece(q: &Quantity) -> (r: Piece)
    ensures
        r@ == PieceView::Tenths(q@),
{
    Piece::Tenths(q.clone())
}

fn separator() -> (r: Line)
    ensures
        r@ == separator_line(),
{
    let mut s = "<>".to_owned();
    let mut i: usize = 0;
    while i < 70
        invariant
            i <= 70,
            s@ == "<>"@ + Seq::new(i as nat, |k: int| '-'),
        decreases 70 - i,
    {
        s.append("-");
        proof {
            reveal_strlit("-");
            assert(s@ =~= "<>"@ + Seq::new((i + 1) as nat, |k: int| '-'));
        }
        i += 1;
    }
    s.append("<>");
    let mut pieces: Vec<Piece> = Vec::new();
    pieces.push(Piece::Text(s));
    let r = Line { pieces };
    assert(r@ =~= separator_line());
    r
}

fn empty_line() -> (r: Line)
    ensures
        r@ == Seq::<PieceView>::empty(),
{
    let r = Line { pieces: Vec::new() };
    assert(r@ =~= Seq::<PieceView>::empty());
    r
}

fn place(l: &Location) -> (r: Line)
    ensures
        r@ == place_line(l@),
{
    let mut pieces: Vec<Piece> = Vec::new();
    pieces.push(text_piece(l.name.as_str()));
    pieces.push(text_piece(" ("));
    pieces.push(text_piece(l.region.as_str()));
    pieces.push(text_piece(", "));
    pieces.push(text_piece(l.country.as_str()));
    pieces.push(text_piece(")"));
    let r = Line { pieces };
    assert(r@ =~= place_line(l@));
    r
}

fn local_time(l: &Location) -> (r: Line)
    ensures
        r@ == local_time_line(l@),
{
    let mut pieces: Vec<Piece> = Vec::new();
    pieces.push(text_piece("Local Time: "));
    pieces.push(text_piece(l.localtime.as_str()));
    let r = Line { pieces };
    assert(r@ =~= local_time_line(l@));
    r
}

fn condition(c: &Current) -> (r: Line)
    ensures
        r@ == condition_line(c@),
{
    let mut pieces: Vec<Piece> = Vec::new();
    pieces.push(text_piece(c.condition.text.as_str()));
    pieces.push(text_piece(" | "));
    pieces.push(plain_piece(&c.temp_c));
    pieces.push(text_piece("°C / "));
    pieces.push(plain_piece(&c.temp_f));
    pieces.push(text_piece("°F\tUV: "));
    pieces.push(plain_piece(&c.uv));
    let r = Line { pieces };
    assert(r@ =~= condition_line(c@));
    r
}

fn feels_like(c: &Current) -> (r: Line)
    ensures
        r@ == feels_like_line(c@),
{
    let humidity = decimal_text(c.humidity as i64);
    let mut pieces: Vec<Piece> = Vec::new();
    pieces.push(text_piece("Feels like: "));
    pieces.push(plain_piece(&c.feelslike_c));
    pieces.push(text_piece("°C / "));
    pieces.push(plain_piece(&c.feelslike_f));
    pieces.push(text_piece("°F\tHumidity: "));
    pieces.push(Piece::Text(humidity));
    pieces.push(text_piece("%\tPrecip: "));
    pieces.push(plain_piece(&c.precip_mm));
    pieces.push(text_piece(" mm"));
    let r = Line { pieces };
    assert(r@ =~= feels_like_line(c@));
    r
}

fn wind(c: &Current) -> (r: Line)
    ensures
        r@ == wind_line(c@),
{
    let mut pieces: Vec<Piece> = Vec::new();
    pieces.push(text_piece("Wind: "));
    pieces.push(text_piece(wind_arrow(c.wind_dir.as_str())));
    pieces.push(text_piece(" "));
    pieces.push(plain_piece(&c.wind_kph));
    pieces.push(text_piece("kph / "));
    pieces.push(plain_piece(&c.wind_mph));
    pieces.push(text_piece("mph \tDew Point: "));
    pieces.push(plain_piece(&c.dewpoint_c));
    pieces.push(text_piece("°C / "));
    pieces.push(plain_piece(&c.dewpoint_f));
    pieces.push(text_piece("°F"));
    let r = Line { pieces };
    assert(r@ =~= wind_line(c@));
    r
}

fn air_quality(a: &AirQuality) -> (r: Line)
    ensures
        r@ == air_quality_line(a@),
{
    let mut pieces: Vec<Piece> = Vec::new();
    pieces.push(text_piece("AQI: "));
    pieces.push(text_piece(aqi_label(a.us_epa_index)));
    pieces.push(text_piece("\tPM2.5: "));
    pieces.push(tenths_piece(&a.pm2_5));
    pieces.push(text_piece(" μg/m³\tPM10: "));
    pieces.push(tenths_piece(&a.pm10));
    pieces.push(text_piece(" μg/m³"));
    let r = Line { pieces };
    assert(r@ =~= air_quality_line(a@));
    r
}

fn forecast_header() -> (r: Line)
    ensures
        r@ == forecast_header_line(),
{
    let mut pieces: Vec<Piece> = Vec::new();
    pieces.push(text_piece("▶ Forecast:"));
    let r = Line { pieces };
    assert(r@ =~= forecast_header_line());
    r
}

fn day(d: &ForecastDay) -> (r: Line)
    ensures
        r@ == day_line(d@),
{
    let mut pieces: Vec<Piece> = Vec::new();
    pieces.push(text_piece("  - "));
    pieces.push(text_piece(d.date.as_str()));
    pieces.push(text_piece(": "));
    pieces.push(plain_piece(&d.day.maxtemp_c));
    pieces.push(text_piece("°C / "));
    pieces.push(plain_piece(&d.day.maxtemp_f));
    pieces.push(text_piece("°F, "));
    pieces.push(text_piece(d.day.condition.text.as_str()));
    pieces.push(text_piece(" (Precip: "));
    pieces.push(plain_piece(&d.day.totalprecip_mm));
    pieces.push(text_piece(" mm, UV: "));
    pieces.push(plain_piece(&d.day.uv));
    pieces.push(text_piece(")"));
    let r = Line { pieces };
    assert(r@ =~= day_line(d@));
    r
}

/// The lines of the report for a response, in their fixed order. It never
/// fails: a wind direction or an index that the tables do not know is shown
/// by its fallback.
pub fn render_report(w: &WeatherData) -> (lines: Vec<Line>)
    ensures
        line_views(lines@) == report_of(w@),
{
    let mut lines: Vec<Line> = Vec::new();
    lines.push(separator());
    lines.push(place(&w.location));
    lines.push(local_time(&w.location));
    lines.push(empty_line());
    lines.push(condition(&w.current));
    lines.push(empty_line());
    lines.push(feels_like(&w.current));
    lines.push(wind(&w.current));
    lines.push(air_quality(&w.current.air_quality));
    lines.push(empty_line());
    lines.push(forecast_header());
    assert(line_views(lines@) =~= head_lines(w@));
    let days = &w.forecast.forecastday;
    let mut i: usize = 0;
    while i < days.len()
        invariant
            i <= days.len(),
            w@.forecast.forecastday == forecast_day_views(days@),
            line_views(lines@) == head_lines(w@) + day_lines(
                w@.forecast.forecastday.subrange(0, i as int),
            ),
        decreases days.len() - i,
    {
        let ghost before = lines@;
        lines.push(day(&days[i]));
        proof {
            let all = w@.forecast.forecastday;
            assert(line_views(lines@) =~= line_views(before).push(day_line(all[i as int])));
            assert(all.subrange(0, i + 1) =~= all.subrange(0, i as int).push(all[i as int]));
            assert(day_lines(all.subrange(0, i + 1)) =~= day_lines(
                all.subrange(0, i as int),
            ).push(day_line(all[i as int])));
            assert(line_views(lines@) =~= head_lines(w@) + day_lines(all.subrange(0, i + 1)));
        }
        i += 1;
    }
    assert(w@.forecast.forecastday.subrange(0, i as int) =~= w@.forecast.forecastday);
    lines.push(separator());
    assert(line_views(lines@) =~= report_of(w@));
    lines
}

impl Line {
    /// The line as it is printed, given the texts of its quantities in their
    /// order; nothing where the texts are not as many as the quantities.
    pub fn text(&self, shown: &Vec<String>) -> (r: Option<String>)
        ensures
            match r {
                Some(t) => spliced(self@, text_views(shown@)) == Some(t@),
                None => spliced(self@, text_views(shown@)) is None,
            },
    {
        let n = self.pieces.len();
        let mut count: usize = 0;
        let mut i: usize = 0;
        while i < n
            invariant
                n == self.pieces@.len(),
                i <= n,
                count <= i,
                count == quantity_count(self@.subrange(0, i as int)),
            decreases n - i,
        {
            assert(self@.subrange(0, i + 1).drop_last() =~= self@.subrange(0, i as int));
            match &self.pieces[i] {
                Piece::Text(_) => {},
                _ => {
                    count += 1;
                },
            }
            i += 1;
        }
        proof {
            assert(self@.subrange(0, n as int) =~= self@);
            lemma_spliced_needs_one_text_each(self@, text_views(shown@));
        }
        let given = shown.len();
        if count != given {
            return None;
        }
        let mut out = String::new();
        let mut k: usize = 0;
        let mut i: usize = 0;
        while i < n
            invariant
                n == self.pieces@.len(),
                i <= n,
                given == shown@.len(),
                k <= given,
                k == quantity_count(self@.subrange(0, i as int)),
                quantity_count(self@) == shown@.len(),
                spliced(self@.subrange(0, i as int), text_views(shown@).subrange(0, k as int))
                    == Some(out@),
            decreases n - i,
        {
            proof {
                assert(self@.subrange(0, i + 1).drop_last() =~= self@.subrange(0, i as int));
                lemma_count_of_prefix(self@, i + 1);
            }
            match &self.pieces[i] {
                Piece::Text(t) => {
                    out.append(t.as_str());
                },
                _ => {
                    assert(self@.subrange(0, i + 1).last() == self.pieces@[i as int]@);
                    assert(k < given);
                    assert(text_views(shown@).subrange(0, k + 1).drop_last() =~= text_views(
                        shown@,
                    ).subrange(0, k as int));
                    out.append(shown[k].as_str());
                    k += 1;
                },
            }
            i += 1;
        }
        proof {
            assert(self@.subrange(0, n as int) =~= self@);
            assert(text_views(shown@).subrange(0, k as int) =~= text_views(shown@));
        }
        Some(out)
    }
}

/// The lines of the days stand in the report in the order of the forecast:
/// after the eleven lines of the head, the line of each day stands where the
/// day stands in the forecast, and the closing rule comes last.
pub proof fn lemma_days_keep_their_order(w: WeatherDataView, i: int)
    requires
        0 <= i < w.forecast.forecastday.len(),
    ensures
        report_of(w).len() == w.forecast.forecastday.len() + 12,
        report_of(w)[11 + i] == day_line(w.forecast.forecastday[i]),
        report_of(w)[report_of(w).len() - 1] == separator_line(),
{
}

} // verus!
