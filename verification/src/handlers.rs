//! Command handlers: one thin, operation-specific builder per worker
//! command. Each assembles the parameter payload with its fixed, documented
//! field names and hands back the fully framed request line; no validation
//! happens here beyond what the types already guarantee.

use vstd::prelude::*;

use crate::codec::encode_request;
use crate::codec::int_text;
use crate::codec::one_line;
use crate::codec::request_line_text;
use crate::codec::str_text;
use crate::codec::val_text;
use crate::json::JsonValue;

verus! {

/// The text of one `"key":value` object member.
pub open spec fn member_text(key: Seq<char>, value_text: Seq<char>) -> Seq<char> {
    str_text(key) + seq![':'] + value_text
}

/// The text of a string-or-null member value.
pub open spec fn opt_str_text(s: Option<Seq<char>>) -> Seq<char> {
    match s {
        Some(t) => str_text(t),
        None => "null"@,
    }
}

/// The parameter payload of the overlay-rendering command: the dataset,
/// image and segmentation identifiers, the attribute filling the regions,
/// and the optional attribute drawing their borders (`null` when absent).
pub open spec fn plot_tissue_overlay_params_text(
    dataset_id: Seq<char>,
    img_id: Seq<char>,
    seg_id: Seq<char>,
    fill_key: Seq<char>,
    border_key: Option<Seq<char>>,
) -> Seq<char> {
    seq!['{'] + member_text("dataset_id"@, str_text(dataset_id)) + seq![','] + member_text(
        "img_id"@,
        str_text(img_id),
    ) + seq![','] + member_text("seg_id"@, str_text(seg_id)) + seq![','] + member_text(
        "fill_key"@,
        str_text(fill_key),
    ) + seq![','] + member_text("border_key"@, opt_str_text(border_key)) + seq!['}']
}

/// The parameter payload of the tile-fetching command: the overlay to read
/// from and the zoom level and grid position of the requested tile.
pub open spec fn get_tissue_overlay_tile_params_text(
    overlay_id: Seq<char>,
    zoom: int,
    x: int,
    y: int,
) -> Seq<char> {
    seq!['{'] + member_text("overlay_id"@, str_text(overlay_id)) + seq![','] + member_text(
        "zoom"@,
        int_text(zoom),
    ) + seq![','] + member_text("x"@, int_text(x)) + seq![','] + member_text("y"@, int_text(y))
        + seq!['}']
}

/// Builds the request line asking the worker to render a tissue overlay.
pub fn plot_tissue_overlay_request(
    dataset_id: &str,
    img_id: &str,
    seg_id: &str,
    fill_key: &str,
    border_key: Option<&str>,
) -> (line: String)
    ensures
        line@ == request_line_text(
            "plot_tissue_overlay"@,
            plot_tissue_overlay_params_text(
                dataset_id@,
                img_id@,
                seg_id@,
                fill_key@,
                match border_key {
                    Some(b) => Some(b@),
                    None => None,
                },
            ),
        ),
        line@.len() > 0,
        line@.last() == '\n',
        one_line(line@.drop_last()),
{
    let mut pairs: Vec<(String, JsonValue)> = Vec::new();
    pairs.push((String::from_str("dataset_id"), JsonValue::Str(String::from_str(dataset_id))));
    pairs.push((String::from_str("img_id"), JsonValue::Str(String::from_str(img_id))));
    pairs.push((String::from_str("seg_id"), JsonValue::Str(String::from_str(seg_id))));
    pairs.push((String::from_str("fill_key"), JsonValue::Str(String::from_str(fill_key))));
    let border: JsonValue = match border_key {
        Some(b) => JsonValue::Str(String::from_str(b)),
        None => JsonValue::Null,
    };
    pairs.push((String::from_str("border_key"), border));
    let params = JsonValue::Obj(pairs);
    proof {
        let ps = params->Obj_0@;
        let want = plot_tissue_overlay_params_text(
            dataset_id@,
            img_id@,
            seg_id@,
            fill_key@,
            match border_key {
                Some(b) => Some(b@),
                None => None,
            },
        );
        assert(val_text(ps[0].1) =~= str_text(dataset_id@));
        assert(val_text(ps[1].1) =~= str_text(img_id@));
        assert(val_text(ps[2].1) =~= str_text(seg_id@));
        assert(val_text(ps[3].1) =~= str_text(fill_key@));
        assert(val_text(ps[4].1) =~= opt_str_text(
            match border_key {
                Some(b) => Some(b@),
                None => None,
            },
        ));
        assert(crate::codec::obj_text(ps, 5) =~= Seq::<char>::empty());
        assert(crate::codec::obj_text(ps, 4) =~= member_text(
            "border_key"@,
            opt_str_text(
                match border_key {
                    Some(b) => Some(b@),
                    None => None,
                },
            ),
        )) by {
            reveal_strlit("null");
        }
        assert(crate::codec::obj_text(ps, 3) =~= member_text("fill_key"@, str_text(fill_key@))
            + seq![','] + crate::codec::obj_text(ps, 4));
        assert(crate::codec::obj_text(ps, 2) =~= member_text("seg_id"@, str_text(seg_id@))
            + seq![','] + crate::codec::obj_text(ps, 3));
        assert(crate::codec::obj_text(ps, 1) =~= member_text("img_id"@, str_text(img_id@))
            + seq![','] + crate::codec::obj_text(ps, 2));
        assert(crate::codec::obj_text(ps, 0) =~= member_text("dataset_id"@, str_text(dataset_id@))
            + seq![','] + crate::codec::obj_text(ps, 1));
        assert(val_text(params) =~= want);
    }
    encode_request("plot_tissue_overlay", &params)
}

/// Builds the request line asking the worker for one overlay tile.
pub fn get_tissue_overlay_tile_request(overlay_id: &str, zoom: i32, x: i32, y: i32) -> (line:
    String)
    ensures
        line@ == request_line_text(
            "get_tissue_overlay_tile"@,
            get_tissue_overlay_tile_params_text(overlay_id@, zoom as int, x as int, y as int),
        ),
        line@.len() > 0,
        line@.last() == '\n',
        one_line(line@.drop_last()),
{
    let mut pairs: Vec<(String, JsonValue)> = Vec::new();
    pairs.push((String::from_str("overlay_id"), JsonValue::Str(String::from_str(overlay_id))));
    pairs.push((String::from_str("zoom"), JsonValue::Int(zoom as i64)));
    pairs.push((String::from_str("x"), JsonValue::Int(x as i64)));
    pairs.push((String::from_str("y"), JsonValue::Int(y as i64)));
    let params = JsonValue::Obj(pairs);
    proof {
        let ps = params->Obj_0@;
        assert(val_text(ps[0].1) =~= str_text(overlay_id@));
        assert(val_text(ps[1].1) =~= int_text(zoom as int));
        assert(val_text(ps[2].1) =~= int_text(x as int));
        assert(val_text(ps[3].1) =~= int_text(y as int));
        assert(crate::codec::obj_text(ps, 4) =~= Seq::<char>::empty());
        assert(crate::codec::obj_text(ps, 3) =~= member_text("y"@, int_text(y as int)));
        assert(crate::codec::obj_text(ps, 2) =~= member_text("x"@, int_text(x as int)) + seq![',']
            + crate::codec::obj_text(ps, 3));
        assert(crate::codec::obj_text(ps, 1) =~= member_text("zoom"@, int_text(zoom as int))
            + seq![','] + crate::codec::obj_text(ps, 2));
        assert(crate::codec::obj_text(ps, 0) =~= member_text("overlay_id"@, str_text(overlay_id@))
            + seq![','] + crate::codec::obj_text(ps, 1));
        assert(val_text(params) =~= get_tissue_overlay_tile_params_text(
            overlay_id@,
            zoom as int,
            x as int,
            y as int,
        ));
    }
    encode_request("get_tissue_overlay_tile", &params)
}

} // verus!
