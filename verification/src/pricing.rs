use vstd::prelude::*;
use vstd::string::StringExecFns;

use crate::model::{resolution_name, supports, Model, Resolution};

verus! {

/// The kinds of table in the bundled price notes.
#[derive(Debug, Clone, Copy, PartialEq, Eq, Structural)]
pub enum TableKind {
    /// Per-second rates of text- and image-to-video, by resolution and aspect ratio.
    TextImageRates,
    /// Typical per-second rates of video-to-video, by resolution.
    VideoRates,
    /// Costs of a few typical jobs.
    Examples,
}

/// One table of the price notes, for one model.
pub struct PriceTable {
    pub kind: TableKind,
    pub model: &'static str,
    pub rows: Vec<Vec<&'static str>>,
}

/// The texts `fields` joined by commas.
pub open spec fn csv(fields: Seq<Seq<char>>) -> Seq<char>
    decreases fields.len(),
{
    if fields.len() == 0 {
        Seq::empty()
    } else if fields.len() == 1 {
        fields[0]
    } else {
        csv(fields.drop_last()) + ","@ + fields.last()
    }
}

/// The texts of the fields of a row.
pub open spec fn field_texts(row: Seq<&'static str>) -> Seq<Seq<char>> {
    row.map_values(|s: &'static str| s@)
}

/// The first line of a table.
pub open spec fn table_title(kind: TableKind, model: Seq<char>) -> Seq<char> {
    match kind {
        TableKind::TextImageRates => model + " text/image-to-video per-second rates"@,
        TableKind::VideoRates => model + " video-to-video typical rates"@,
        TableKind::Examples => model + " quick cost examples"@,
    }
}

/// The column header line of a table.
pub open spec fn table_header(kind: TableKind) -> Seq<char> {
    match kind {
        TableKind::TextImageRates => "resolution,16:9,4:3,1:1,3:4,9:16,21:9"@,
        TableKind::VideoRates => "resolution,typical,range"@,
        TableKind::Examples => "input_type,resolution,aspect_ratio,duration,cost_usd"@,
    }
}

/// The lines a table prints as: title, header, one line per row, then a blank line.
pub open spec fn table_text(t: PriceTable) -> Seq<Seq<char>> {
    seq![table_title(t.kind, t.model@), table_header(t.kind)] + Seq::new(
        t.rows@.len(),
        |i: int| csv(field_texts(t.rows@[i]@)),
    ) + seq![Seq::<char>::empty()]
}

/// The lines that open the price notes.
pub open spec fn pricing_intro() -> Seq<Seq<char>> {
    seq![
        "Seedance 2.0 Segmind reference pricing, USD/sec."@,
        "Multiply text/image-to-video rates by output duration. Video-to-video also depends on reference-video tokens."@,
        Seq::<char>::empty(),
    ]
}

/// The lines of the tables `ts`, one after another.
pub open spec fn sheet_text(ts: Seq<PriceTable>) -> Seq<Seq<char>>
    decreases ts.len(),
{
    if ts.len() == 0 {
        Seq::empty()
    } else {
        sheet_text(ts.drop_last()) + table_text(ts.last())
    }
}

/// The texts of some lines.
pub open spec fn line_texts(lines: Seq<String>) -> Seq<Seq<char>> {
    lines.map_values(|s: String| s@)
}

/// The fields of `row` joined by commas.
pub fn csv_line(row: &Vec<&'static str>) -> (r: String)
    ensures
        r@ == csv(field_texts(row@)),
{
    let mut r = String::new();
    let mut i: usize = 0;
    while i < row.len()
        invariant
            i <= row.len(),
            r@ == csv(field_texts(row@.take(i as int))),
        decreases row.len() - i,
    {
        let ghost before = row@.take(i as int);
        if i > 0 {
            r.append(",");
        }
        r.append(row[i]);
        proof {
            let after = row@.take(i + 1);
            assert(after.drop_last() =~= before);
            assert(field_texts(after).drop_last() =~= field_texts(before));
            if i == 0 {
                assert(field_texts(after) =~= seq![row@[0]@]);
            }
        }
        i = i + 1;
    }
    assert(row@.take(row@.len() as int) =~= row@);
    r
}

fn push_line(lines: &mut Vec<String>, line: String)
    ensures
        line_texts(final(lines)@) == line_texts(old(lines)@).push(line@),
{
    let ghost before = lines@;
    lines.push(line);
    assert(line_texts(lines@) =~= line_texts(before).push(line@));
}

fn title_line(kind: TableKind, model: &str) -> (r: String)
    ensures
        r@ == table_title(kind, model@),
{
    let mut r = model.to_owned();
    match kind {
        TableKind::TextImageRates => r.append(" text/image-to-video per-second rates"),
        TableKind::VideoRates => r.append(" video-to-video typical rates"),
        TableKind::Examples => r.append(" quick cost examples"),
    }
    r
}

fn header_line(kind: TableKind) -> (r: String)
    ensures
        r@ == table_header(kind),
{
    match kind {
        TableKind::TextImageRates => "resolution,16:9,4:3,1:1,3:4,9:16,21:9".to_owned(),
        TableKind::VideoRates => "resolution,typical,range".to_owned(),
        TableKind::Examples => "input_type,resolution,aspect_ratio,duration,cost_usd".to_owned(),
    }
}

/// Appends the lines of one table to `lines`.
pub fn push_table_lines(lines: &mut Vec<String>, t: &PriceTable)
    ensures
        line_texts(final(lines)@) == line_texts(old(lines)@) + table_text(*t),
{
    let ghost start = line_texts(lines@);
    push_line(lines, title_line(t.kind, t.model));
    push_line(lines, header_line(t.kind));
    let ghost head = line_texts(lines@);
    let mut i: usize = 0;
    while i < t.rows.len()
        invariant
            i <= t.rows.len(),
            line_texts(lines@) == head + Seq::new(
                i as nat,
                |k: int| csv(field_texts(t.rows@[k]@)),
            ),
        decreases t.rows.len() - i,
    {
        push_line(lines, csv_line(&t.rows[i]));
        assert(line_texts(lines@) =~= head + Seq::new(
            (i + 1) as nat,
            |k: int| csv(field_texts(t.rows@[k]@)),
        ));
        i = i + 1;
    }
    push_line(lines, String::new());
    assert(line_texts(lines@) =~= start + table_text(*t));
}

/// The lines of the price notes: the opening lines, then each table of `sheet` in turn.
pub fn pricing_lines(sheet: &Vec<PriceTable>) -> (r: Vec<String>)
    ensures
        line_texts(r@) == pricing_intro() + sheet_text(sheet@),
{
    let mut lines: Vec<String> = Vec::new();
    push_line(&mut lines, "Seedance 2.0 Segmind reference pricing, USD/sec.".to_owned());
    push_line(
        &mut lines,
        "Multiply text/image-to-video rates by output duration. Video-to-video also depends on reference-video tokens.".to_owned(),
    );
    push_line(&mut lines, String::new());
    assert(line_texts(lines@) =~= pricing_intro());
    let mut i: usize = 0;
    while i < sheet.len()
        invariant
            i <= sheet.len(),
            line_texts(lines@) == pricing_intro() + sheet_text(sheet@.take(i as int)),
        decreases sheet.len() - i,
    {
        push_table_lines(&mut lines, &sheet[i]);
        assert(sheet@.take(i + 1).drop_last() =~= sheet@.take(i as int));
        i = i + 1;
    }
    assert(sheet@.take(sheet@.len() as int) =~= sheet@);
    lines
}

/// The texts of the fields of each row.
pub open spec fn rows_text(rows: Seq<Vec<&'static str>>) -> Seq<Seq<Seq<char>>> {
    rows.map_values(|row: Vec<&'static str>| field_texts(row@))
}

/// Table `i` of `sheet` is of kind `kind`, for the model named `model`, with rows whose
/// fields read `rows`.
pub open spec fn table_is(
    sheet: Seq<PriceTable>,
    i: int,
    kind: TableKind,
    model: Seq<char>,
    rows: Seq<Seq<Seq<char>>>,
) -> bool {
    &&& 0 <= i < sheet.len()
    &&& sheet[i].kind == kind
    &&& sheet[i].model@ == model
    &&& rows_text(sheet[i].rows@) == rows
}

/// The rows of the bundled price notes, table by table: for each of mini, fast and standard,
/// the text/image-to-video rates, the video-to-video rates and a few examples.
pub open spec fn bundled_rows(i: int) -> Seq<Seq<Seq<char>>> {
    if i == 0 {
        seq![
            seq!["480p"@, "0.0352"@, "0.0345"@, "0.0336"@, "0.0345"@, "0.0352"@, "0.0352"@],
            seq!["720p"@, "0.0756"@, "0.0761"@, "0.0756"@, "0.0761"@, "0.0756"@, "0.0760"@],
        ]
    } else if i == 1 {
        seq![
            seq!["480p"@, "~0.045"@, "0.035-0.065"@],
            seq!["720p"@, "~0.095"@, "0.08-0.12"@],
        ]
    } else if i == 2 {
        seq![
            seq!["Text / Image-to-video"@, "480p"@, "16:9"@, "5s"@, "0.18"@],
            seq!["Text / Image-to-video"@, "720p"@, "16:9"@, "5s"@, "0.38"@],
            seq!["Text / Image-to-video"@, "720p"@, "16:9"@, "10s"@, "0.76"@],
            seq!["Text / Image-to-video"@, "480p"@, "16:9"@, "15s"@, "0.53"@],
            seq!["Video-to-video"@, "480p"@, "16:9"@, "5s"@, "~0.22"@],
            seq!["Video-to-video"@, "720p"@, "16:9"@, "5s"@, "~0.47"@],
        ]
    } else if i == 3 {
        seq![
            seq!["480p"@, "0.0562"@, "0.0553"@, "0.0538"@, "0.0553"@, "0.0562"@, "0.0562"@],
            seq!["720p"@, "0.1210"@, "0.1217"@, "0.1210"@, "0.1217"@, "0.1210"@, "0.1216"@],
        ]
    } else if i == 4 {
        seq![
            seq!["480p"@, "~0.06"@, "0.055-0.08"@],
            seq!["720p"@, "~0.13"@, "0.12-0.17"@],
        ]
    } else if i == 5 {
        seq![
            seq!["Text / Image-to-video"@, "480p"@, "16:9"@, "5s"@, "0.28"@],
            seq!["Text / Image-to-video"@, "720p"@, "16:9"@, "5s"@, "0.60"@],
            seq!["Text / Image-to-video"@, "720p"@, "16:9"@, "10s"@, "1.21"@],
            seq!["Video-to-video"@, "480p"@, "16:9"@, "5s"@, "~0.30"@],
            seq!["Video-to-video"@, "720p"@, "16:9"@, "5s"@, "~0.65"@],
        ]
    } else if i == 6 {
        seq![
            seq!["480p"@, "0.0703"@, "0.0691"@, "0.0672"@, "0.0691"@, "0.0703"@, "0.0703"@],
            seq!["720p"@, "0.1512"@, "0.1522"@, "0.1512"@, "0.1522"@, "0.1512"@, "0.1519"@],
            seq!["1080p"@, "0.34"@, "0.34"@, "0.34"@, "0.34"@, "0.34"@, "0.34"@],
            seq!["4k"@, "1.3721"@, "1.3721"@, "1.3721"@, "1.3721"@, "1.3721"@, "1.3721"@],
        ]
    } else if i == 7 {
        seq![
            seq!["480p"@, "~0.09"@, "0.07-0.13"@],
            seq!["720p"@, "~0.19"@, "0.16-0.25"@],
            seq!["1080p"@, "~0.41"@, "0.35-0.50"@],
        ]
    } else {
        seq![
            seq!["Text / Image-to-video"@, "480p"@, "16:9"@, "5s"@, "0.35"@],
            seq!["Text / Image-to-video"@, "720p"@, "16:9"@, "5s"@, "0.76"@],
            seq!["Text / Image-to-video"@, "720p"@, "16:9"@, "10s"@, "1.51"@],
            seq!["Text / Image-to-video"@, "1080p"@, "16:9"@, "5s"@, "1.70"@],
            seq!["Text / Image-to-video"@, "4k"@, "16:9"@, "5s"@, "6.86"@],
            seq!["Video-to-video"@, "480p"@, "16:9"@, "5s"@, "~0.45"@],
            seq!["Video-to-video"@, "720p"@, "16:9"@, "5s"@, "~0.95"@],
        ]
    }
}

fn table(kind: TableKind, model: &'static str, rows: Vec<Vec<&'static str>>) -> (r: PriceTable)
    ensures
        r.kind == kind,
        r.model == model,
        r.rows == rows,
{
    PriceTable { kind, model, rows }
}

/// The bundled Seedance 2.0 price notes, in USD per second.
pub fn price_sheet() -> (r: Vec<PriceTable>)
    ensures
        r@.len() == 9,
        table_is(r@, 0, TableKind::TextImageRates, "mini"@, bundled_rows(0)),
        table_is(r@, 1, TableKind::VideoRates, "mini"@, bundled_rows(1)),
        table_is(r@, 2, TableKind::Examples, "mini"@, bundled_rows(2)),
        table_is(r@, 3, TableKind::TextImageRates, "fast"@, bundled_rows(3)),
        table_is(r@, 4, TableKind::VideoRates, "fast"@, bundled_rows(4)),
        table_is(r@, 5, TableKind::Examples, "fast"@, bundled_rows(5)),
        table_is(r@, 6, TableKind::TextImageRates, "standard"@, bundled_rows(6)),
        table_is(r@, 7, TableKind::VideoRates, "standard"@, bundled_rows(7)),
        table_is(r@, 8, TableKind::Examples, "standard"@, bundled_rows(8)),
{
    let mut sheet: Vec<PriceTable> = Vec::new();
    let rows = vec![
        vec!["480p", "0.0352", "0.0345", "0.0336", "0.0345", "0.0352", "0.0352"],
        vec!["720p", "0.0756", "0.0761", "0.0756", "0.0761", "0.0756", "0.0760"],
    ];
    assert(rows_text(rows@) =~~= bundled_rows(0));
    sheet.push(table(TableKind::TextImageRates, "mini", rows));
    let rows = vec![
        vec!["480p", "~0.045", "0.035-0.065"],
        vec!["720p", "~0.095", "0.08-0.12"],
    ];
    assert(rows_text(rows@) =~~= bundled_rows(1));
    sheet.push(table(TableKind::VideoRates, "mini", rows));
    let rows = vec![
        vec!["Text / Image-to-video", "480p", "16:9", "5s", "0.18"],
        vec!["Text / Image-to-video", "720p", "16:9", "5s", "0.38"],
        vec!["Text / Image-to-video", "720p", "16:9", "10s", "0.76"],
        vec!["Text / Image-to-video", "480p", "16:9", "15s", "0.53"],
        vec!["Video-to-video", "480p", "16:9", "5s", "~0.22"],
        vec!["Video-to-video", "720p", "16:9", "5s", "~0.47"],
    ];
    assert(rows_text(rows@) =~~= bundled_rows(2));
    sheet.push(table(TableKind::Examples, "mini", rows));
    let rows = vec![
        vec!["480p", "0.0562", "0.0553", "0.0538", "0.0553", "0.0562", "0.0562"],
        vec!["720p", "0.1210", "0.1217", "0.1210", "0.1217", "0.1210", "0.1216"],
    ];
    assert(rows_text(rows@) =~~= bundled_rows(3));
    sheet.push(table(TableKind::TextImageRates, "fast", rows));
    let rows = vec![
        vec!["480p", "~0.06", "0.055-0.08"],
        vec!["720p", "~0.13", "0.12-0.17"],
    ];
    assert(rows_text(rows@) =~~= bundled_rows(4));
    sheet.push(table(TableKind::VideoRates, "fast", rows));
    let rows = vec![
        vec!["Text / Image-to-video", "480p", "16:9", "5s", "0.28"],
        vec!["Text / Image-to-video", "720p", "16:9", "5s", "0.60"],
        vec!["Text / Image-to-video", "720p", "16:9", "10s", "1.21"],
        vec!["Video-to-video", "480p", "16:9", "5s", "~0.30"],
        vec!["Video-to-video", "720p", "16:9", "5s", "~0.65"],
    ];
    assert(rows_text(rows@) =~~= bundled_rows(5));
    sheet.push(table(TableKind::Examples, "fast", rows));
    let rows = vec![
        vec!["480p", "0.0703", "0.0691", "0.0672", "0.0691", "0.0703", "0.0703"],
        vec!["720p", "0.1512", "0.1522", "0.1512", "0.1522", "0.1512", "0.1519"],
        vec!["1080p", "0.34", "0.34", "0.34", "0.34", "0.34", "0.34"],
        vec!["4k", "1.3721", "1.3721", "1.3721", "1.3721", "1.3721", "1.3721"],
    ];
    assert(rows_text(rows@) =~~= bundled_rows(6));
    sheet.push(table(TableKind::TextImageRates, "standard", rows));
    let rows = vec![
        vec!["480p", "~0.09", "0.07-0.13"],
        vec!["720p", "~0.19", "0.16-0.25"],
        vec!["1080p", "~0.41", "0.35-0.50"],
    ];
    assert(rows_text(rows@) =~~= bundled_rows(7));
    sheet.push(table(TableKind::VideoRates, "standard", rows));
    let rows = vec![
        vec!["Text / Image-to-video", "480p", "16:9", "5s", "0.35"],
        vec!["Text / Image-to-video", "720p", "16:9", "5s", "0.76"],
        vec!["Text / Image-to-video", "720p", "16:9", "10s", "1.51"],
        vec!["Text / Image-to-video", "1080p", "16:9", "5s", "1.70"],
        vec!["Text / Image-to-video", "4k", "16:9", "5s", "6.86"],
        vec!["Video-to-video", "480p", "16:9", "5s", "~0.45"],
        vec!["Video-to-video", "720p", "16:9", "5s", "~0.95"],
    ];
    assert(rows_text(rows@) =~~= bundled_rows(8));
    sheet.push(table(TableKind::Examples, "standard", rows));
    sheet
}

/// Where the price notes keep a model's text/image-to-video rates: the first of its three
/// tables, which come in the order mini, fast, standard.
pub open spec fn rates_table(m: Model) -> int {
    match m {
        Model::Mini => 0,
        Model::Fast => 3,
        Model::Standard => 6,
    }
}

/// Law: the price notes give a text/image-to-video rate for every resolution a model
/// renders: its table has a row for that resolution.
pub proof fn lemma_rates_cover_supported(m: Model, r: Resolution)
    requires
        supports(m, r),
    ensures
        exists|j: int|
            0 <= j < bundled_rows(rates_table(m)).len() && #[trigger] bundled_rows(
                rates_table(m),
            )[j][0] == resolution_name(r),
{
    let rows = bundled_rows(rates_table(m));
    match r {
        Resolution::R480p => assert(rows[0][0] == resolution_name(r)),
        Resolution::R720p => assert(rows[1][0] == resolution_name(r)),
        Resolution::R1080p => assert(rows[2][0] == resolution_name(r)),
        Resolution::R4k => assert(rows[3][0] == resolution_name(r)),
    }
}

/// Law: the text/image-to-video rates, resolution by resolution: mini and fast list 480p
/// and 720p; standard lists 480p, 720p, 1080p (0.34 for every aspect ratio) and 4k. Each
/// row holds a rate for each of the six aspect ratios.
pub proof fn lemma_rate_rows()
    ensures
        bundled_rows(0).len() == 2 && bundled_rows(3).len() == 2 && bundled_rows(6).len() == 4,
        bundled_rows(0)[0][0] == "480p"@ && bundled_rows(0)[1][0] == "720p"@,
        bundled_rows(3)[0][0] == "480p"@ && bundled_rows(3)[1][0] == "720p"@,
        bundled_rows(6)[0][0] == "480p"@ && bundled_rows(6)[1][0] == "720p"@,
        bundled_rows(6)[2] == seq!["1080p"@, "0.34"@, "0.34"@, "0.34"@, "0.34"@, "0.34"@, "0.34"@],
        bundled_rows(6)[3][0] == "4k"@,
        forall|t: int, j: int|
            (t == 0 || t == 3 || t == 6) && 0 <= j < bundled_rows(t).len() ==> #[trigger] bundled_rows(
                t,
            )[j].len() == 7,
{
}

} // verus!
