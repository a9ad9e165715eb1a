//! The texture decoder: loading it, and turning its output rows into material
//! attributes.
//!
//! Row elements have any copyable type `F`; the caller brings the map from a
//! decoded channel to an attribute.
use crate::text::{message1, message2, text1, text2};
use vstd::prelude::*;
use vstd::string::*;

verus! {

/// A sparse decoder as it comes from disk.
#[derive(Debug)]
pub struct LoadedUnetDecoder<R> {
    pub runtime: R,
    pub out_channels: usize,
    /// The decoder predicts where to subdivide.
    pub pred_subdiv: bool,
}

/// The texture decoder.
#[derive(Debug)]
pub struct SparseUnetVaeDecoderRuntime<R> {
    inner: R,
    out_channels: usize,
}

/// Why a loaded decoder does not serve as texture decoder.
pub open spec fn vae_decoder_fault(out_channels: int, pred_subdiv: bool) -> Option<Seq<char>> {
    if out_channels < 6 {
        Some(
            text1("sparse unet vae decoder runtime out_channels="@, out_channels)
                + " is below required 6"@,
        )
    } else if pred_subdiv {
        Some("sparse unet vae decoder runtime expects pred_subdiv=false"@)
    } else {
        None
    }
}

impl<R> SparseUnetVaeDecoderRuntime<R> {
    /// The decoder itself.
    pub closed spec fn runtime(self) -> R {
        self.inner
    }

    /// Channels of its output rows.
    pub closed spec fn width(self) -> usize {
        self.out_channels
    }

    /// Output rows hold a material at least.
    #[verifier::type_invariant]
    pub open spec fn wf(self) -> bool {
        self.width() >= 6
    }

    /// Loads the decoder of a model and checks that it decodes textures.
    ///
    /// `load` loads a sparse decoder from the two weight directories.
    pub fn load_from_stem<L>(
        weights_root: &str,
        image_large_root: Option<&str>,
        model_stem: &str,
        _prefer_wgpu: bool,
        load: L,
    ) -> (r: Result<Self, String>) where
        L: Fn(&str, Option<&str>, &str) -> Result<LoadedUnetDecoder<R>, String>,

        requires
            call_requires(load, (weights_root, image_large_root, model_stem)),
        ensures
            match r {
                Ok(decoder) => exists|loaded: LoadedUnetDecoder<R>| #[trigger]
                    call_ensures(load, (weights_root, image_large_root, model_stem), Ok(loaded))
                        && vae_decoder_fault(loaded.out_channels as int, loaded.pred_subdiv) is None
                        && decoder.runtime() == loaded.runtime && decoder.width()
                        == loaded.out_channels,
                Err(msg) => call_ensures(
                    load,
                    (weights_root, image_large_root, model_stem),
                    Err::<LoadedUnetDecoder<R>, String>(msg),
                ) || exists|loaded: LoadedUnetDecoder<R>| #[trigger]
                    call_ensures(load, (weights_root, image_large_root, model_stem), Ok(loaded))
                        && vae_decoder_fault(loaded.out_channels as int, loaded.pred_subdiv)
                        == Some(msg@),
            },
    {
        let loaded: LoadedUnetDecoder<R> = match load(weights_root, image_large_root, model_stem) {
            Ok(loaded) => loaded,
            Err(msg) => return Err(msg),
        };
        Self::from_loaded(loaded)
    }

    /// Takes a loaded decoder where it decodes textures.
    pub fn from_loaded(loaded: LoadedUnetDecoder<R>) -> (r: Result<Self, String>)
        ensures
            match vae_decoder_fault(loaded.out_channels as int, loaded.pred_subdiv) {
                None => r matches Ok(decoder) && decoder.runtime() == loaded.runtime
                    && decoder.width() == loaded.out_channels,
                Some(text) => r matches Err(msg) && msg@ == text,
            },
    {
        if loaded.out_channels < 6 {
            let mut out: String = message1(
                "sparse unet vae decoder runtime out_channels=",
                loaded.out_channels,
            );
            out.append(" is below required 6");
            return Err(out);
        }
        if loaded.pred_subdiv {
            return Err("sparse unet vae decoder runtime expects pred_subdiv=false".to_owned());
        }
        Ok(
            SparseUnetVaeDecoderRuntime { inner: loaded.runtime, out_channels: loaded.out_channels },
        )
    }

    /// Channels of an output row.
    pub fn out_channels(&self) -> (r: usize)
        ensures
            r == self.width(),
            r >= 6,
    {
        proof {
            use_type_invariant(self);
        }
        self.out_channels
    }

    /// The decoder itself.
    pub fn inner(&self) -> (r: &R)
        ensures
            *r == self.runtime(),
    {
        &self.inner
    }
}

// ---------------------------------------------------------------------------
// Output rows
// ---------------------------------------------------------------------------

/// Decoded voxels with their material attributes.
#[derive(Debug)]
pub struct TexDecodedOutput<F> {
    pub coords: Vec<[u32; 4]>,
    pub attrs: Vec<[F; 6]>,
}

/// `attrs` are the mapped first six channels of each of `rows` rows.
pub open spec fn tex_attrs_of<F, M>(
    feats: Seq<F>,
    out_channels: int,
    rows: int,
    to_attr: M,
    attrs: Seq<[F; 6]>,
) -> bool where M: Fn(F) -> F {
    &&& attrs.len() == rows
    &&& forall|row: int, ch: int|
        0 <= row < rows && 0 <= ch < 6 ==> call_ensures(
            to_attr,
            (feats[row * out_channels + ch],),
            #[trigger] attrs[row]@[ch],
        )
}

/// Maps the first six channels of each row.
fn tex_attr_rows<F: Copy, M>(feats: &[F], out_channels: usize, rows: usize, to_attr: &M) -> (r: Vec<
    [F; 6],
>) where M: Fn(F) -> F
    requires
        out_channels >= 6,
        rows * out_channels == feats@.len(),
        forall|x: F| call_requires(*to_attr, (x,)),
    ensures
        tex_attrs_of(feats@, out_channels as int, rows as int, *to_attr, r@),
{
    let mut attrs: Vec<[F; 6]> = Vec::new();
    let mut row: usize = 0;
    let len: usize = feats.len();
    while row < rows
        invariant
            row <= rows,
            out_channels >= 6,
            len == feats@.len(),
            rows * out_channels == len,
            forall|x: F| call_requires(*to_attr, (x,)),
            tex_attrs_of(feats@, out_channels as int, row as int, *to_attr, attrs@),
        decreases rows - row,
    {
        proof {
            assert((row + 1) * out_channels == row * out_channels + out_channels)
                by (nonlinear_arith);
            assert((row + 1) * out_channels <= rows * out_channels) by (nonlinear_arith)
                requires
                    row + 1 <= rows,
            ;
            assert(0 <= row * out_channels) by (nonlinear_arith);
        }
        let base: usize = row * out_channels;
        let attr: [F; 6] = [
            to_attr(feats[base]),
            to_attr(feats[base + 1]),
            to_attr(feats[base + 2]),
            to_attr(feats[base + 3]),
            to_attr(feats[base + 4]),
            to_attr(feats[base + 5]),
        ];
        let ghost before = attrs@;
        attrs.push(attr);
        proof {
            assert forall|r: int, ch: int|
                0 <= r < row + 1 && 0 <= ch < 6 implies call_ensures(
                *to_attr,
                (feats@[r * out_channels + ch],),
                #[trigger] attrs@[r]@[ch],
            ) by {
                if r < row {
                    assert(attrs@[r]@[ch] == before[r]@[ch]);
                } else {
                    assert(attrs@[r] == attr);
                    assert(ch == 0 || ch == 1 || ch == 2 || ch == 3 || ch == 4 || ch == 5);
                }
            }
        }
        row = row + 1;
    }
    attrs
}

/// Fewer channels than a material has.
pub open spec fn tex_channels_text(out_channels: int) -> Seq<char> {
    text1("sparse unet vae decoder expected at least 6 channels, got "@, out_channels)
}

/// Why decoded rows are refused, given their coordinates.
pub open spec fn tex_output_fault(rows: int, feats_len: int, out_channels: int) -> Option<
    Seq<char>,
> {
    if out_channels < 6 {
        Some(tex_channels_text(out_channels))
    } else if feats_len != rows * out_channels {
        Some(
            text2(
                "tex decoder output feats len "@,
                feats_len,
                " does not match rows*out_channels = "@,
                rows * out_channels,
            ),
        )
    } else {
        None
    }
}

/// Material attributes of decoded voxels.
pub fn decode_tex_outputs_from_host<F: Copy, M>(
    decoded_coords: Vec<[u32; 4]>,
    decoded_feats: &[F],
    out_channels: usize,
    to_attr: M,
) -> (r: Result<TexDecodedOutput<F>, String>) where M: Fn(F) -> F
    requires
        decoded_coords@.len() * out_channels <= usize::MAX,
        forall|x: F| call_requires(to_attr, (x,)),
    ensures
        match tex_output_fault(
            decoded_coords@.len() as int,
            decoded_feats@.len() as int,
            out_channels as int,
        ) {
            Some(text) => r matches Err(msg) && msg@ == text,
            None => r matches Ok(out) && out.coords == decoded_coords && tex_attrs_of(
                decoded_feats@,
                out_channels as int,
                decoded_coords@.len() as int,
                to_attr,
                out.attrs@,
            ),
        },
{
    if out_channels < 6 {
        return Err(
            message1("sparse unet vae decoder expected at least 6 channels, got ", out_channels),
        );
    }
    let rows: usize = decoded_coords.len();
    let expected: usize = rows * out_channels;
    if decoded_feats.len() != expected {
        return Err(
            message2(
                "tex decoder output feats len ",
                decoded_feats.len(),
                " does not match rows*out_channels = ",
                expected,
            ),
        );
    }
    let attrs: Vec<[F; 6]> = tex_attr_rows(decoded_feats, out_channels, rows, &to_attr);
    Ok(TexDecodedOutput { coords: decoded_coords, attrs })
}

/// Why decoded rows are refused, given how many are expected.
pub open spec fn tex_attrs_fault(
    feats_len: int,
    out_channels: int,
    expected_rows: Option<usize>,
) -> Option<Seq<char>> {
    if out_channels < 6 {
        Some(tex_channels_text(out_channels))
    } else if feats_len % out_channels != 0 {
        Some(
            text2(
                "tex decoder feats len "@,
                feats_len,
                " is not divisible by out_channels="@,
                out_channels,
            ),
        )
    } else if expected_rows matches Some(expected) && feats_len / out_channels != expected {
        Some(
            text2(
                "tex decoder output row mismatch: expected_rows="@,
                expected_rows->Some_0 as int,
                " actual_rows="@,
                feats_len / out_channels,
            ),
        )
    } else {
        None
    }
}

/// Material attributes of decoded rows.
pub fn decode_tex_attrs_from_host<F: Copy, M>(
    decoded_feats: &[F],
    out_channels: usize,
    expected_rows: Option<usize>,
    to_attr: M,
) -> (r: Result<Vec<[F; 6]>, String>) where M: Fn(F) -> F
    requires
        forall|x: F| call_requires(to_attr, (x,)),
    ensures
        match tex_attrs_fault(decoded_feats@.len() as int, out_channels as int, expected_rows) {
            Some(text) => r matches Err(msg) && msg@ == text,
            None => r matches Ok(attrs) && tex_attrs_of(
                decoded_feats@,
                out_channels as int,
                decoded_feats@.len() as int / out_channels as int,
                to_attr,
                attrs@,
            ),
        },
{
    if out_channels < 6 {
        return Err(
            message1("sparse unet vae decoder expected at least 6 channels, got ", out_channels),
        );
    }
    let len: usize = decoded_feats.len();
    if len % out_channels != 0 {
        return Err(
            message2(
                "tex decoder feats len ",
                len,
                " is not divisible by out_channels=",
                out_channels,
            ),
        );
    }
    let rows: usize = len / out_channels;
    if let Some(expected) = expected_rows {
        if rows != expected {
            return Err(
                message2(
                    "tex decoder output row mismatch: expected_rows=",
                    expected,
                    " actual_rows=",
                    rows,
                ),
            );
        }
    }
    proof {
        vstd::arithmetic::div_mod::lemma_fundamental_div_mod(len as int, out_channels as int);
        assert(rows * out_channels == out_channels * rows) by (nonlinear_arith);
    }
    Ok(tex_attr_rows(decoded_feats, out_channels, rows, &to_attr))
}

/// Rows that are accepted with their coordinates are accepted without them,
/// where as many rows are expected as there are coordinates.
pub proof fn tex_checks_agree(rows: usize, feats_len: int, out_channels: int)
    requires
        out_channels >= 0,
        tex_output_fault(rows as int, feats_len, out_channels) is None,
    ensures
        tex_attrs_fault(feats_len, out_channels, Some(rows)) is None,
{
    assert(feats_len % out_channels == 0 && feats_len / out_channels == rows) by {
        vstd::arithmetic::div_mod::lemma_fundamental_div_mod_converse(
            feats_len,
            out_channels,
            rows as int,
            0,
        );
    }
}

/// Attribute `ch` of voxel `k` comes from channel `ch` of the voxel's own row,
/// whatever the other rows hold.
pub proof fn voxels_are_decoded_from_their_own_rows<F, M>(
    feats: Seq<F>,
    out_channels: int,
    rows: int,
    to_attr: M,
    attrs: Seq<[F; 6]>,
    material: spec_fn(F) -> F,
    k: int,
    ch: int,
) where M: Fn(F) -> F
    requires
        out_channels >= 6,
        feats.len() == rows * out_channels,
        0 <= k < rows,
        0 <= ch < 6,
        tex_attrs_of(feats, out_channels, rows, to_attr, attrs),
        forall|v: F, a: F| #[trigger] call_ensures(to_attr, (v,), a) ==> a == material(v),
    ensures
        attrs.len() == rows,
        feats.subrange(k * out_channels, (k + 1) * out_channels).len() == out_channels,
        attrs[k]@[ch] == material(feats.subrange(k * out_channels, (k + 1) * out_channels)[ch]),
{
    assert(0 <= k * out_channels && (k + 1) * out_channels == k * out_channels + out_channels && (k
        + 1) * out_channels <= rows * out_channels) by (nonlinear_arith)
        requires
            0 <= k < rows,
            out_channels >= 6,
    ;
    assert(call_ensures(to_attr, (feats[k * out_channels + ch],), attrs[k]@[ch]));
}

/// Rows are decoded one by one: the attributes of two lists of whole rows, one
/// behind the other, are those of the first list followed by those of the
/// second.
pub proof fn rows_are_decoded_one_by_one<F, M>(
    front: Seq<F>,
    back: Seq<F>,
    out_channels: int,
    m: int,
    n: int,
    to_attr: M,
    front_attrs: Seq<[F; 6]>,
    back_attrs: Seq<[F; 6]>,
    attrs: Seq<[F; 6]>,
) where M: Fn(F) -> F
    requires
        out_channels >= 6,
        m >= 0,
        n >= 0,
        front.len() == m * out_channels,
        back.len() == n * out_channels,
        tex_attrs_of(front, out_channels, m, to_attr, front_attrs),
        tex_attrs_of(back, out_channels, n, to_attr, back_attrs),
        tex_attrs_of(front + back, out_channels, m + n, to_attr, attrs),
        forall|v: F, a: F, b: F| #[trigger]
            call_ensures(to_attr, (v,), a) && #[trigger] call_ensures(to_attr, (v,), b) ==> a == b,
    ensures
        attrs.len() == m + n,
        forall|k: int| 0 <= k < m ==> (#[trigger] attrs[k])@ == front_attrs[k]@,
        forall|k: int| m <= k < m + n ==> (#[trigger] attrs[k])@ == back_attrs[k - m]@,
{
    let all = front + back;
    assert forall|k: int| 0 <= k < m implies (#[trigger] attrs[k])@ == front_attrs[k]@ by {
        assert forall|ch: int| 0 <= ch < 6 implies attrs[k]@[ch] == front_attrs[k]@[ch] by {
            assert(0 <= k * out_channels + ch < m * out_channels) by (nonlinear_arith)
                requires
                    0 <= k < m,
                    0 <= ch < 6,
                    out_channels >= 6,
            ;
            assert(all[k * out_channels + ch] == front[k * out_channels + ch]);
            assert(call_ensures(to_attr, (all[k * out_channels + ch],), attrs[k]@[ch]));
            assert(call_ensures(to_attr, (front[k * out_channels + ch],), front_attrs[k]@[ch]));
        }
        assert(attrs[k]@ =~= front_attrs[k]@);
    }
    assert forall|k: int| m <= k < m + n implies (#[trigger] attrs[k])@ == back_attrs[k - m]@ by {
        let j = k - m;
        assert forall|ch: int| 0 <= ch < 6 implies attrs[k]@[ch] == back_attrs[j]@[ch] by {
            assert(0 <= j * out_channels + ch < n * out_channels && k * out_channels + ch == m
                * out_channels + (j * out_channels + ch)) by (nonlinear_arith)
                requires
                    0 <= j < n,
                    k == m + j,
                    0 <= ch < 6,
                    out_channels >= 6,
            ;
            assert(all[k * out_channels + ch] == back[j * out_channels + ch]);
            assert(call_ensures(to_attr, (all[k * out_channels + ch],), attrs[k]@[ch]));
            assert(call_ensures(to_attr, (back[j * out_channels + ch],), back_attrs[j]@[ch]));
        }
        assert(attrs[k]@ =~= back_attrs[j]@);
    }
}

/// A decoder is usable exactly where it gives the six channels of a material or
/// more, and does not predict its subdivision.
pub proof fn decoders_give_six_channels(out_channels: int, pred_subdiv: bool)
    ensures
        vae_decoder_fault(out_channels, pred_subdiv) is None <==> out_channels >= 6 && !pred_subdiv,
{
}

} // verus!
