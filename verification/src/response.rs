use vstd::prelude::*;

verus! {

/// The decoded confirmation the API returns for a delivered command: a
/// success flag and a correlation identifier. It is only ever produced from
/// a response body that decoded to exactly this shape; a transport or
/// decoding failure yields an [`crate::Error`] instead, never a partial
/// confirmation.
#[derive(Debug)]
pub struct StimuliResponse {
    success: bool,
    id: String,
}

impl StimuliResponse {
    /// The success flag the API reported.
    pub closed spec fn success_spec(&self) -> bool {
        self.success
    }

    /// The correlation identifier the API reported.
    pub closed spec fn id_spec(&self) -> Seq<char> {
        self.id@
    }

    /// Assemble a confirmation from its two decoded fields.
    pub fn new(success: bool, id: String) -> (r: StimuliResponse)
        ensures
            r.success_spec() == success,
            r.id_spec() == id@,
    {
        StimuliResponse { success, id }
    }

    /// The success flag the API reported.
    pub fn success(&self) -> (b: bool)
        ensures
            b == self.success_spec(),
    {
        self.success
    }

    /// The correlation identifier the API reported.
    pub fn id(&self) -> (r: &str)
        ensures
            r@ == self.id_spec(),
    {
        self.id.as_str()
    }
}

} // verus!
