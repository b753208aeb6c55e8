//! The records of a Bedrock foundation-model listing.
use crate::text::{bool_text, bool_to_text, join, join_strings};
use vstd::prelude::*;

verus! {

/// A foundation model of a listing.
#[derive(Debug)]
pub struct FoundationalModelsSummary {
    pub name: String,
    pub id: String,
    pub provider: String,
    pub input_modalities: String,
    pub output_modalities: String,
    pub response_streaming_supported: String,
    pub customizations_supported: String,
    pub inference_types_supported: String,
    pub lifecycle_status: String,
}

/// The texts of a list of strings.
pub open spec fn views(v: Seq<String>) -> Seq<Seq<char>> {
    v.map_values(|s: String| s@)
}

impl FoundationalModelsSummary {
    /// The record of a model: input modalities joined by `, `, output
    /// modalities, customizations and inference types by `,`; streaming
    /// `false` unless supported; name, provider and lifecycle status must be
    /// present.
    pub fn from_parts(
        model_name: Option<String>,
        model_id: String,
        provider_name: Option<String>,
        input_modalities: Vec<String>,
        output_modalities: Vec<String>,
        response_streaming_supported: Option<bool>,
        customizations_supported: Vec<String>,
        inference_types_supported: Vec<String>,
        lifecycle_status: Option<String>,
    ) -> (m: FoundationalModelsSummary)
        requires
            model_name is Some,
            provider_name is Some,
            lifecycle_status is Some,
        ensures
            m.name == model_name->0,
            m.id == model_id,
            m.provider == provider_name->0,
            m.input_modalities@ == join(views(input_modalities@), ", "@),
            m.output_modalities@ == join(views(output_modalities@), ","@),
            m.response_streaming_supported@ == bool_text(
                match response_streaming_supported {
                    Some(b) => b,
                    None => false,
                },
            ),
            m.customizations_supported@ == join(views(customizations_supported@), ","@),
            m.inference_types_supported@ == join(views(inference_types_supported@), ","@),
            m.lifecycle_status == lifecycle_status->0,
    {
        FoundationalModelsSummary {
            name: model_name.unwrap(),
            id: model_id,
            provider: provider_name.unwrap(),
            input_modalities: join_strings(&input_modalities, ", "),
            output_modalities: join_strings(&output_modalities, ","),
            response_streaming_supported: bool_to_text(
                match response_streaming_supported {
                    Some(b) => b,
                    None => false,
                },
            ),
            customizations_supported: join_strings(&customizations_supported, ","),
            inference_types_supported: join_strings(&inference_types_supported, ","),
            lifecycle_status: lifecycle_status.unwrap(),
        }
    }
}

} // verus!
