use vstd::prelude::*;

verus! {

/// Shaders of the post-processing pass.
pub enum EPostprocessingPipeline {
    CustomWaterExample,
}

impl EPostprocessingPipeline {
    /// The asset path of each variant.
    pub open spec fn path(&self) -> Seq<char> {
        match self {
            EPostprocessingPipeline::CustomWaterExample => "shaders/post-processing/custom-water-example.wgsl"@,
        }
    }

    pub fn as_str(&self) -> (s: &'static str)
        ensures
            s@ == self.path(),
    {
        match self {
            EPostprocessingPipeline::CustomWaterExample => "shaders/post-processing/custom-water-example.wgsl",
        }
    }
}

/// Distinct variants have distinct names, and every name starts with `shaders/post-processing/custom-water-example.wgsl`.
pub proof fn lemma_e_postprocessing_pipeline_names(a: EPostprocessingPipeline, b: EPostprocessingPipeline)
    ensures
        a != b ==> a.path() != b.path(),
        a.path().len() >= 49 && a.path().subrange(0, 49) == "shaders/post-processing/custom-water-example.wgsl"@,
{
    reveal_strlit("shaders/post-processing/custom-water-example.wgsl");
    assert(EPostprocessingPipeline::CustomWaterExample.path().len() == 49);
    reveal_strlit("shaders/post-processing/custom-water-example.wgsl");
    reveal_strlit("shaders/post-processing/custom-water-example.wgsl");
    assert(a.path().subrange(0, 49) =~= "shaders/post-processing/custom-water-example.wgsl"@);
}

} // verus!
