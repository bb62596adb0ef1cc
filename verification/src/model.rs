use vstd::prelude::*;

verus! {

/// The Seedance 2.0 models.
#[derive(Debug, Clone, Copy, PartialEq, Eq, Structural)]
pub enum Model {
    Mini,
    Fast,
    Standard,
}

/// The deprecated speed alias for a model.
#[derive(Debug, Clone, Copy, PartialEq, Eq, Structural)]
pub enum Speed {
    Fast,
    Standard,
}

/// Output resolutions.
#[derive(Debug, Clone, Copy, PartialEq, Eq, Structural)]
pub enum Resolution {
    R480p,
    R720p,
    R1080p,
    R4k,
}

/// The service's name for a model.
pub open spec fn model_slug(m: Model) -> Seq<char> {
    match m {
        Model::Mini => "seedance-2.0-mini"@,
        Model::Fast => "seedance-2.0-fast"@,
        Model::Standard => "seedance-2.0"@,
    }
}

/// The human-readable name of a model.
pub open spec fn model_label(m: Model) -> Seq<char> {
    match m {
        Model::Mini => "Seedance 2.0 Mini"@,
        Model::Fast => "Seedance 2.0 Fast"@,
        Model::Standard => "Seedance 2.0 Standard"@,
    }
}

/// The name of a resolution, as the service and the command line write it.
pub open spec fn resolution_name(r: Resolution) -> Seq<char> {
    match r {
        Resolution::R480p => "480p"@,
        Resolution::R720p => "720p"@,
        Resolution::R1080p => "1080p"@,
        Resolution::R4k => "4k"@,
    }
}

/// Whether a model can render at a resolution: Mini and Fast stop at 720p.
pub open spec fn supports(m: Model, r: Resolution) -> bool {
    match m {
        Model::Mini | Model::Fast => r == Resolution::R480p || r == Resolution::R720p,
        Model::Standard => true,
    }
}

impl Model {
    /// The service's name for this model.
    pub fn slug(self) -> (r: &'static str)
        ensures
            r@ == model_slug(self),
            self == Model::Mini ==> r@ == "seedance-2.0-mini"@,
            self == Model::Fast ==> r@ == "seedance-2.0-fast"@,
            self == Model::Standard ==> r@ == "seedance-2.0"@,
    {
        match self {
            Model::Mini => "seedance-2.0-mini",
            Model::Fast => "seedance-2.0-fast",
            Model::Standard => "seedance-2.0",
        }
    }

    /// The human-readable name of this model.
    pub fn label(self) -> (r: &'static str)
        ensures
            r@ == model_label(self),
    {
        match self {
            Model::Mini => "Seedance 2.0 Mini",
            Model::Fast => "Seedance 2.0 Fast",
            Model::Standard => "Seedance 2.0 Standard",
        }
    }

    /// Whether this model can render at `resolution`.
    pub fn supports(self, resolution: Resolution) -> (r: bool)
        ensures
            r == supports(self, resolution),
            r <==> (self == Model::Standard || resolution == Resolution::R480p || resolution
                == Resolution::R720p),
    {
        match self {
            Model::Mini | Model::Fast => resolution == Resolution::R480p || resolution
                == Resolution::R720p,
            Model::Standard => true,
        }
    }
}

impl Resolution {
    /// The name of this resolution.
    pub fn as_str(self) -> (r: &'static str)
        ensures
            r@ == resolution_name(self),
            self == Resolution::R480p ==> r@ == "480p"@,
            self == Resolution::R720p ==> r@ == "720p"@,
            self == Resolution::R1080p ==> r@ == "1080p"@,
            self == Resolution::R4k ==> r@ == "4k"@,
    {
        match self {
            Resolution::R480p => "480p",
            Resolution::R720p => "720p",
            Resolution::R1080p => "1080p",
            Resolution::R4k => "4k",
        }
    }
}

/// Law: every model renders 480p and 720p; only Standard renders 1080p and 4k.
pub proof fn lemma_supported_resolutions(m: Model, r: Resolution)
    ensures
        supports(m, r) <==> (m == Model::Standard || r == Resolution::R480p || r
            == Resolution::R720p),
        supports(m, Resolution::R480p),
        supports(m, Resolution::R720p),
        supports(Model::Standard, r),
        !supports(Model::Mini, Resolution::R1080p) && !supports(Model::Mini, Resolution::R4k),
        !supports(Model::Fast, Resolution::R1080p) && !supports(Model::Fast, Resolution::R4k),
{
}

/// Law: each model is submitted to its own endpoint: `seedance-2.0-mini`,
/// `seedance-2.0-fast` and `seedance-2.0`, three different names.
pub proof fn lemma_model_slugs(m: Model, n: Model)
    ensures
        model_slug(Model::Mini) == "seedance-2.0-mini"@,
        model_slug(Model::Fast) == "seedance-2.0-fast"@,
        model_slug(Model::Standard) == "seedance-2.0"@,
        model_slug(m) == model_slug(n) ==> m == n,
{
    reveal_strlit("seedance-2.0-mini");
    reveal_strlit("seedance-2.0-fast");
    reveal_strlit("seedance-2.0");
    assert("seedance-2.0-mini"@[13] != "seedance-2.0-fast"@[13]);
    assert("seedance-2.0-mini"@.len() != "seedance-2.0"@.len());
    assert("seedance-2.0-fast"@.len() != "seedance-2.0"@.len());
}

} // verus!
