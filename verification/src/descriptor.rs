//! Asset descriptors: one record per entry of the remote manifest.

use vstd::prelude::*;

verus! {

/// Mathematical view of an [`AssetDescriptor`]: its three fields as
/// character sequences.
pub ghost struct DescriptorView {
    pub shortcode: Seq<char>,
    pub static_url: Seq<char>,
    pub category: Seq<char>,
}

/// One entry of the remote manifest: the asset's shortcode, the URL of its
/// binary payload, and the category it belongs to. Descriptors carry no
/// identity beyond their fields; duplicates are processed independently.
pub struct AssetDescriptor {
    pub shortcode: String,
    pub static_url: String,
    pub category: String,
}

impl View for AssetDescriptor {
    type V = DescriptorView;

    open spec fn view(&self) -> DescriptorView {
        DescriptorView {
            shortcode: self.shortcode@,
            static_url: self.static_url@,
            category: self.category@,
        }
    }
}

impl Clone for AssetDescriptor {
    fn clone(&self) -> (d: Self)
        ensures
            d == *self,
    {
        AssetDescriptor {
            shortcode: self.shortcode.clone(),
            static_url: self.static_url.clone(),
            category: self.category.clone(),
        }
    }
}

/// The views of a sequence of descriptors, in order.
pub open spec fn descs_view(s: Seq<AssetDescriptor>) -> Seq<DescriptorView> {
    s.map_values(|d: AssetDescriptor| d@)
}

} // verus!
