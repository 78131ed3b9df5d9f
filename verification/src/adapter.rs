//! The multipart request adapter: classify already-read fields by exact
//! name, decode textual fields into typed parameters with documented
//! defaults, keep the raw image bytes, and fail fast on missing or
//! malformed input. Fields are consumed in arrival order; when a name
//! repeats, the later field wins; unrecognized names are ignored.

use vstd::prelude::*;

use crate::errors::TransformError;
use crate::errors::spec_status;
use crate::parse::parse_u32;
use crate::parse::spec_parse_u32;
use crate::types::CropImageInput;
use crate::types::GetImageDimensionsInput;
use crate::types::MultipartField;
use crate::types::ResizeImageInput;

verus! {

/// The outcome of scanning a field sequence for a resize: the last image
/// payload and the last parsed width and height, each if present, or the
/// name of the first numeric field that fails to parse.
pub open spec fn scan_resize(fields: Seq<MultipartField>) -> Result<
    (Option<Seq<u8>>, Option<u32>, Option<u32>),
    Seq<char>,
>
    decreases fields.len(),
{
    if fields.len() == 0 {
        Ok((None, None, None))
    } else {
        match scan_resize(fields.drop_last()) {
            Err(name) => Err(name),
            Ok(st) => {
                let f = fields.last();
                if f.name@ == "image"@ {
                    Ok((Some(f.payload@), st.1, st.2))
                } else if f.name@ == "width"@ {
                    match spec_parse_u32(f.payload@) {
                        Some(v) => Ok((st.0, Some(v), st.2)),
                        None => Err(f.name@),
                    }
                } else if f.name@ == "height"@ {
                    match spec_parse_u32(f.payload@) {
                        Some(v) => Ok((st.0, st.1, Some(v))),
                        None => Err(f.name@),
                    }
                } else {
                    Ok(st)
                }
            }
        }
    }
}

/// Once a scan has failed on some prefix, scanning any longer prefix fails
/// the same way: a later field never repairs an earlier malformed one.
proof fn lemma_scan_resize_err_persists(fields: Seq<MultipartField>, j: int, k: int)
    requires
        0 <= j <= k <= fields.len(),
        scan_resize(fields.take(j)) is Err,
    ensures
        scan_resize(fields.take(k)) == scan_resize(fields.take(j)),
    decreases k - j,
{
    if j < k {
        lemma_scan_resize_err_persists(fields, j, k - 1);
        assert(fields.take(k).drop_last() =~= fields.take(k - 1));
    }
}

/// The loop relation of `build_resize_input`: the scan of the first `n`
/// fields has not failed, its numeric slots match the accumulators, and its
/// image slot holds the payload at the remembered index.
spec fn resize_scan_state(
    fields: Seq<MultipartField>,
    n: int,
    img_idx: Option<usize>,
    width: Option<u32>,
    height: Option<u32>,
) -> bool {
    match scan_resize(fields.take(n)) {
        Err(_) => false,
        Ok(st) => st.1 == width && st.2 == height && match st.0 {
            Some(b) => img_idx matches Some(j) && j < n && fields[j as int].payload@ == b,
            None => img_idx is None,
        },
    }
}

/// Build a resize input from the fields of one request. The last `image`
/// field supplies the bytes; `width` and `height` are parsed as unsigned
/// integers, defaulting to 800 and 600 when absent. The first malformed
/// numeric field is reported by name; without an image field nothing is
/// built, so no transform can ever be dispatched on a request that carried
/// no image data.
pub fn build_resize_input(fields: Vec<MultipartField>) -> (r: Result<
    ResizeImageInput,
    TransformError,
>)
    ensures
        match scan_resize(fields@) {
            Err(name) => r matches Err(TransformError::InvalidParameter(n)) && n@ == name,
            Ok(st) => match st.0 {
                None => r matches Err(TransformError::MissingImageData),
                Some(b) => r matches Ok(input) && input.data@ == b
                    && input.width == st.1.unwrap_or(800u32)
                    && input.height == st.2.unwrap_or(600u32),
            },
        },
{
    let mut flds = fields;
    let image_key: String = "image".to_owned();
    let width_key: String = "width".to_owned();
    let height_key: String = "height".to_owned();
    let mut img_idx: Option<usize> = None;
    let mut width: Option<u32> = None;
    let mut height: Option<u32> = None;
    let mut i: usize = 0;
    while i < flds.len()
        invariant
            flds@ == fields@,
            i <= fields@.len(),
            image_key@ == "image"@,
            width_key@ == "width"@,
            height_key@ == "height"@,
            resize_scan_state(fields@, i as int, img_idx, width, height),
        decreases fields@.len() - i,
    {
        proof {
            assert(fields@.take(i as int + 1).drop_last() =~= fields@.take(i as int));
        }
        let f = &flds[i];
        if f.name == image_key {
            img_idx = Some(i);
        } else if f.name == width_key {
            match parse_u32(&f.payload) {
                Some(v) => {
                    width = Some(v);
                }
                None => {
                    proof {
                        lemma_scan_resize_err_persists(
                            fields@,
                            i as int + 1,
                            fields@.len() as int,
                        );
                        assert(fields@.take(fields@.len() as int) =~= fields@);
                    }
                    return Err(TransformError::InvalidParameter(f.name.clone()));
                }
            }
        } else if f.name == height_key {
            match parse_u32(&f.payload) {
                Some(v) => {
                    height = Some(v);
                }
                None => {
                    proof {
                        lemma_scan_resize_err_persists(
                            fields@,
                            i as int + 1,
                            fields@.len() as int,
                        );
                        assert(fields@.take(fields@.len() as int) =~= fields@);
                    }
                    return Err(TransformError::InvalidParameter(f.name.clone()));
                }
            }
        }
        i = i + 1;
    }
    proof {
        assert(fields@.take(fields@.len() as int) =~= fields@);
    }
    match img_idx {
        None => Err(TransformError::MissingImageData),
        Some(j) => {
            let f = flds.swap_remove(j);
            let w: u32 = width.unwrap_or(800);
            let h: u32 = height.unwrap_or(600);
            Ok(ResizeImageInput::new(f.payload, w, h))
        }
    }
}

/// The outcome of scanning a field sequence for a crop: the last image
/// payload and the last parsed rectangle coordinates, each if present, or
/// the name of the first numeric field that fails to parse.
pub open spec fn scan_crop(fields: Seq<MultipartField>) -> Result<
    (Option<Seq<u8>>, Option<u32>, Option<u32>, Option<u32>, Option<u32>),
    Seq<char>,
>
    decreases fields.len(),
{
    if fields.len() == 0 {
        Ok((None, None, None, None, None))
    } else {
        match scan_crop(fields.drop_last()) {
            Err(name) => Err(name),
            Ok(st) => {
                let f = fields.last();
                if f.name@ == "image"@ {
                    Ok((Some(f.payload@), st.1, st.2, st.3, st.4))
                } else if f.name@ == "x"@ {
                    match spec_parse_u32(f.payload@) {
                        Some(v) => Ok((st.0, Some(v), st.2, st.3, st.4)),
                        None => Err(f.name@),
                    }
                } else if f.name@ == "y"@ {
                    match spec_parse_u32(f.payload@) {
                        Some(v) => Ok((st.0, st.1, Some(v), st.3, st.4)),
                        None => Err(f.name@),
                    }
                } else if f.name@ == "width"@ {
                    match spec_parse_u32(f.payload@) {
                        Some(v) => Ok((st.0, st.1, st.2, Some(v), st.4)),
                        None => Err(f.name@),
                    }
                } else if f.name@ == "height"@ {
                    match spec_parse_u32(f.payload@) {
                        Some(v) => Ok((st.0, st.1, st.2, st.3, Some(v))),
                        None => Err(f.name@),
                    }
                } else {
                    Ok(st)
                }
            }
        }
    }
}

/// As for the resize scan: a failure on a prefix persists to the whole.
proof fn lemma_scan_crop_err_persists(fields: Seq<MultipartField>, j: int, k: int)
    requires
        0 <= j <= k <= fields.len(),
        scan_crop(fields.take(j)) is Err,
    ensures
        scan_crop(fields.take(k)) == scan_crop(fields.take(j)),
    decreases k - j,
{
    if j < k {
        lemma_scan_crop_err_persists(fields, j, k - 1);
        assert(fields.take(k).drop_last() =~= fields.take(k - 1));
    }
}

/// The loop relation of `build_crop_input`.
spec fn crop_scan_state(
    fields: Seq<MultipartField>,
    n: int,
    img_idx: Option<usize>,
    x: Option<u32>,
    y: Option<u32>,
    width: Option<u32>,
    height: Option<u32>,
) -> bool {
    match scan_crop(fields.take(n)) {
        Err(_) => false,
        Ok(st) => st.1 == x && st.2 == y && st.3 == width && st.4 == height && match st.0 {
            Some(b) => img_idx matches Some(j) && j < n && fields[j as int].payload@ == b,
            None => img_idx is None,
        },
    }
}

/// Build a crop input from the fields of one request. A crop has no
/// defaults: all four rectangle coordinates are required, and an absent
/// one is reported as invalid under its own name, after the image check.
pub fn build_crop_input(fields: Vec<MultipartField>) -> (r: Result<
    CropImageInput,
    TransformError,
>)
    ensures
        match scan_crop(fields@) {
            Err(name) => r matches Err(TransformError::InvalidParameter(n)) && n@ == name,
            Ok(st) => {
                if st.0 is None {
                    r matches Err(TransformError::MissingImageData)
                } else if st.1 is None {
                    r matches Err(TransformError::InvalidParameter(n)) && n@ == "x"@
                } else if st.2 is None {
                    r matches Err(TransformError::InvalidParameter(n)) && n@ == "y"@
                } else if st.3 is None {
                    r matches Err(TransformError::InvalidParameter(n)) && n@ == "width"@
                } else if st.4 is None {
                    r matches Err(TransformError::InvalidParameter(n)) && n@ == "height"@
                } else {
                    r matches Ok(input) && input.data@ == st.0->Some_0
                        && input.x == st.1->Some_0
                        && input.y == st.2->Some_0
                        && input.width == st.3->Some_0
                        && input.height == st.4->Some_0
                }
            },
        },
{
    let mut flds = fields;
    let image_key: String = "image".to_owned();
    let x_key: String = "x".to_owned();
    let y_key: String = "y".to_owned();
    let width_key: String = "width".to_owned();
    let height_key: String = "height".to_owned();
    let mut img_idx: Option<usize> = None;
    let mut x: Option<u32> = None;
    let mut y: Option<u32> = None;
    let mut width: Option<u32> = None;
    let mut height: Option<u32> = None;
    let mut i: usize = 0;
    while i < flds.len()
        invariant
            flds@ == fields@,
            i <= fields@.len(),
            image_key@ == "image"@,
            x_key@ == "x"@,
            y_key@ == "y"@,
            width_key@ == "width"@,
            height_key@ == "height"@,
            crop_scan_state(fields@, i as int, img_idx, x, y, width, height),
        decreases fields@.len() - i,
    {
        proof {
            assert(fields@.take(i as int + 1).drop_last() =~= fields@.take(i as int));
        }
        let f = &flds[i];
        if f.name == image_key {
            img_idx = Some(i);
        } else if f.name == x_key {
            match parse_u32(&f.payload) {
                Some(v) => {
                    x = Some(v);
                }
                None => {
                    proof {
                        lemma_scan_crop_err_persists(fields@, i as int + 1, fields@.len() as int);
                        assert(fields@.take(fields@.len() as int) =~= fields@);
                    }
                    return Err(TransformError::InvalidParameter(f.name.clone()));
                }
            }
        } else if f.name == y_key {
            match parse_u32(&f.payload) {
                Some(v) => {
                    y = Some(v);
                }
                None => {
                    proof {
                        lemma_scan_crop_err_persists(fields@, i as int + 1, fields@.len() as int);
                        assert(fields@.take(fields@.len() as int) =~= fields@);
                    }
                    return Err(TransformError::InvalidParameter(f.name.clone()));
                }
            }
        } else if f.name == width_key {
            match parse_u32(&f.payload) {
                Some(v) => {
                    width = Some(v);
                }
                None => {
                    proof {
                        lemma_scan_crop_err_persists(fields@, i as int + 1, fields@.len() as int);
                        assert(fields@.take(fields@.len() as int) =~= fields@);
                    }
                    return Err(TransformError::InvalidParameter(f.name.clone()));
                }
            }
        } else if f.name == height_key {
            match parse_u32(&f.payload) {
                Some(v) => {
                    height = Some(v);
                }
                None => {
                    proof {
                        lemma_scan_crop_err_persists(fields@, i as int + 1, fields@.len() as int);
                        assert(fields@.take(fields@.len() as int) =~= fields@);
                    }
                    return Err(TransformError::InvalidParameter(f.name.clone()));
                }
            }
        }
        i = i + 1;
    }
    proof {
        assert(fields@.take(fields@.len() as int) =~= fields@);
    }
    let j = match img_idx {
        None => {
            return Err(TransformError::MissingImageData);
        }
        Some(j) => j,
    };
    let xv = match x {
        None => {
            return Err(TransformError::InvalidParameter(x_key));
        }
        Some(v) => v,
    };
    let yv = match y {
        None => {
            return Err(TransformError::InvalidParameter(y_key));
        }
        Some(v) => v,
    };
    let wv = match width {
        None => {
            return Err(TransformError::InvalidParameter(width_key));
        }
        Some(v) => v,
    };
    let hv = match height {
        None => {
            return Err(TransformError::InvalidParameter(height_key));
        }
        Some(v) => v,
    };
    let f = flds.swap_remove(j);
    Ok(CropImageInput::new(f.payload, xv, yv, wv, hv))
}

/// The image payload a dimension query reads: the last `image` field, if
/// any. A dimension query has no parameters, so every other field is
/// ignored.
pub open spec fn scan_image(fields: Seq<MultipartField>) -> Option<Seq<u8>>
    decreases fields.len(),
{
    if fields.len() == 0 {
        None
    } else if fields.last().name@ == "image"@ {
        Some(fields.last().payload@)
    } else {
        scan_image(fields.drop_last())
    }
}

/// The loop relation of `build_dimensions_input`.
spec fn image_scan_state(fields: Seq<MultipartField>, n: int, img_idx: Option<usize>) -> bool {
    match scan_image(fields.take(n)) {
        Some(b) => img_idx matches Some(j) && j < n && fields[j as int].payload@ == b,
        None => img_idx is None,
    }
}

/// Build a dimension-query input from the fields of one request: only the
/// image bytes are taken; nothing else is required or read.
pub fn build_dimensions_input(fields: Vec<MultipartField>) -> (r: Result<
    GetImageDimensionsInput,
    TransformError,
>)
    ensures
        match scan_image(fields@) {
            None => r matches Err(TransformError::MissingImageData),
            Some(b) => r matches Ok(input) && input.data@ == b,
        },
{
    let mut flds = fields;
    let image_key: String = "image".to_owned();
    let mut img_idx: Option<usize> = None;
    let mut i: usize = 0;
    while i < flds.len()
        invariant
            flds@ == fields@,
            i <= fields@.len(),
            image_key@ == "image"@,
            image_scan_state(fields@, i as int, img_idx),
        decreases fields@.len() - i,
    {
        proof {
            assert(fields@.take(i as int + 1).drop_last() =~= fields@.take(i as int));
        }
        let f = &flds[i];
        if f.name == image_key {
            img_idx = Some(i);
        }
        i = i + 1;
    }
    proof {
        assert(fields@.take(fields@.len() as int) =~= fields@);
    }
    match img_idx {
        None => Err(TransformError::MissingImageData),
        Some(j) => {
            let f = flds.swap_remove(j);
            Ok(GetImageDimensionsInput::new(f.payload))
        }
    }
}

/// A request that carries no `image` field never yields a resize input:
/// the scan leaves the image slot empty, so `build_resize_input` fails
/// with `MissingImageData` (or with `InvalidParameter` if a numeric field
/// was also malformed), and either failure surfaces as 400 before any
/// transform work can be dispatched.
pub proof fn lemma_no_image_never_dispatches(fields: Seq<MultipartField>)
    requires
        forall|i: int| 0 <= i < fields.len() ==> fields[i].name@ != "image"@,
    ensures
        scan_resize(fields) matches Ok(st) ==> st.0 is None,
        spec_status(TransformError::MissingImageData) == 400,
        forall|n: String| spec_status(TransformError::InvalidParameter(n)) == 400,
    decreases fields.len(),
{
    if fields.len() > 0 {
        assert(forall|i: int| 0 <= i < fields.drop_last().len()
            ==> fields.drop_last()[i].name@ != "image"@);
        lemma_no_image_never_dispatches(fields.drop_last());
        assert(fields.last().name@ != "image"@);
    }
}

/// A malformed numeric field is never absorbed: if any `width` or `height`
/// field fails to parse, the whole scan fails, whatever stands before or
/// after it, and `build_resize_input` surfaces `InvalidParameter`, a 400.
pub proof fn lemma_malformed_numeric_rejected(fields: Seq<MultipartField>, i: int)
    requires
        0 <= i < fields.len(),
        fields[i].name@ == "width"@ || fields[i].name@ == "height"@,
        spec_parse_u32(fields[i].payload@) is None,
    ensures
        scan_resize(fields) is Err,
        forall|n: String| spec_status(TransformError::InvalidParameter(n)) == 400,
    decreases fields.len(),
{
    if i < fields.len() - 1 {
        assert(fields.drop_last()[i] == fields[i]);
        lemma_malformed_numeric_rejected(fields.drop_last(), i);
    } else {
        assert(fields.last() == fields[i]);
        reveal_strlit("width");
        reveal_strlit("height");
        reveal_strlit("image");
        assert("width"@[0] != "image"@[0]);
        assert("height"@[0] != "image"@[0]);
        assert(fields[i].name@ != "image"@);
    }
}

/// An absent `width` field leaves the width slot empty, so a successful
/// build uses the documented default of 800.
pub proof fn lemma_absent_width_uses_default(fields: Seq<MultipartField>)
    requires
        forall|i: int| 0 <= i < fields.len() ==> fields[i].name@ != "width"@,
    ensures
        scan_resize(fields) matches Ok(st) ==> st.1 is None,
        scan_resize(fields) matches Ok(st) ==> st.1.unwrap_or(800u32) == 800u32,
    decreases fields.len(),
{
    if fields.len() > 0 {
        assert(forall|i: int| 0 <= i < fields.drop_last().len()
            ==> fields.drop_last()[i].name@ != "width"@);
        lemma_absent_width_uses_default(fields.drop_last());
        assert(fields.last().name@ != "width"@);
    }
}

} // verus!
