//! The tensor index of a model package.

use crate::ordered::OrderedMap;
use crate::ordered;
use vstd::prelude::*;

verus! {

/// What the index records of one tensor.
#[derive(Debug, PartialEq, Eq)]
pub struct TensorMetadata {
    pub dtype: String,
    pub shape: Vec<usize>,
    pub logical_shape: Option<Vec<usize>>,
    pub parameter_count: Option<usize>,
    pub byte_count: Option<usize>,
    pub data_offsets: Option<Vec<usize>>,
    pub source_file: Option<String>,
    pub data_sha256: Option<String>,
    pub layout: Option<String>,
}

#[verifier::ext_equal]
pub struct TensorMetadataView {
    pub dtype: Seq<char>,
    pub shape: Seq<usize>,
    pub logical_shape: Option<Seq<usize>>,
    pub parameter_count: Option<usize>,
    pub byte_count: Option<usize>,
    pub data_offsets: Option<Seq<usize>>,
    pub source_file: Option<Seq<char>>,
    pub data_sha256: Option<Seq<char>>,
    pub layout: Option<Seq<char>>,
}

impl DeepView for TensorMetadata {
    type V = TensorMetadataView;

    open spec fn deep_view(&self) -> TensorMetadataView {
        TensorMetadataView {
            dtype: self.dtype.deep_view(),
            shape: self.shape.deep_view(),
            logical_shape: self.logical_shape.deep_view(),
            parameter_count: self.parameter_count,
            byte_count: self.byte_count,
            data_offsets: self.data_offsets.deep_view(),
            source_file: self.source_file.deep_view(),
            data_sha256: self.data_sha256.deep_view(),
            layout: self.layout.deep_view(),
        }
    }
}

impl View for TensorMetadata {
    type V = TensorMetadataView;

    open spec fn view(&self) -> TensorMetadataView {
        self.deep_view()
    }
}

impl Clone for TensorMetadata {
    fn clone(&self) -> (r: Self)
        ensures
            r@ == self@,
    {
        TensorMetadata {
            dtype: self.dtype.clone(),
            shape: self.shape.clone(),
            logical_shape: self.logical_shape.clone(),
            parameter_count: self.parameter_count.clone(),
            byte_count: self.byte_count.clone(),
            data_offsets: self.data_offsets.clone(),
            source_file: self.source_file.clone(),
            data_sha256: self.data_sha256.clone(),
            layout: self.layout.clone(),
        }
    }
}

/// The tensors of a package, by name.
#[derive(Debug, PartialEq, Eq)]
pub struct TensorIndex {
    pub schema: String,
    pub tensors: OrderedMap<String, TensorMetadata>,
}

#[verifier::ext_equal]
pub struct TensorIndexView {
    pub schema: Seq<char>,
    pub tensors: Map<Seq<char>, TensorMetadataView>,
}

impl DeepView for TensorIndex {
    type V = TensorIndexView;

    open spec fn deep_view(&self) -> TensorIndexView {
        TensorIndexView {
            schema: self.schema.deep_view(),
            tensors: self.tensors.deep_view(),
        }
    }
}

impl View for TensorIndex {
    type V = TensorIndexView;

    open spec fn view(&self) -> TensorIndexView {
        self.deep_view()
    }
}

impl Clone for TensorIndex {
    fn clone(&self) -> (r: Self)
        ensures
            r@ == self@,
    {
        proof {
            assert(ordered::clones_keep_values::<String>());
            assert(ordered::clones_keep_values::<TensorMetadata>());
        }
        TensorIndex { schema: self.schema.clone(), tensors: self.tensors.clone() }
    }
}

/// The byte count that an index records for a tensor.
pub open spec fn recorded_byte_count(
    tensors: Map<Seq<char>, TensorMetadataView>,
    tensor: Seq<char>,
) -> Option<usize> {
    if tensors.contains_key(tensor) {
        tensors[tensor].byte_count
    } else {
        None
    }
}

impl TensorIndex {
    /// The byte count that the index records for a tensor.
    pub fn byte_count(&self, tensor: &String) -> (r: Option<usize>)
        ensures
            r == recorded_byte_count(self@.tensors, tensor@),
    {
        match self.tensors.get(tensor) {
            Some(metadata) => metadata.byte_count,
            None => None,
        }
    }
}

} // verus!
