//! The validated extraction adapter: one shared classification step behind
//! the three input channels (route parameter, form field, JSON field).
//!
//! Each channel hands over its already-decoded candidate string; the
//! classifier then either yields a [`SafePath`] or a [`SafePathRejection`].
//! A [`SafePath`] can only be built here, by passing classification, so
//! every value in circulation satisfies the no-traversal invariant.

use vstd::prelude::*;

use crate::classify::{is_traversal, is_traversal_attack};

verus! {

/// The fixed message surfaced to the client whenever classification rejects,
/// identical across all three channels.
pub open spec fn spec_rejection_message() -> Seq<char> {
    "Invalid path: possible traversal attack detected"@
}

/// The fixed rejection message as a string slice.
pub fn rejection_message() -> (r: &'static str)
    ensures
        r@ == spec_rejection_message(),
{
    "Invalid path: possible traversal attack detected"
}

/// The error of an upstream decode step that failed before classification
/// ever ran: the HTTP status and message the upstream collaborator chose.
/// It is forwarded unchanged.
#[derive(Debug)]
pub struct PathExtractionError {
    pub status: u16,
    pub message: String,
}

/// Why an extraction attempt produced no [`SafePath`].
#[derive(Debug)]
pub enum SafePathRejection {
    /// The classifier found a traversal-capable component.  Surfaced with
    /// HTTP status 400 and the fixed rejection message.
    TraversalAttack,
    /// The upstream decode step itself failed; its own status and message
    /// are forwarded unchanged.
    PathExtraction(PathExtractionError),
}

impl SafePathRejection {
    /// The message body this rejection surfaces to the client.
    pub open spec fn spec_message(&self) -> Seq<char> {
        match self {
            SafePathRejection::TraversalAttack => spec_rejection_message(),
            SafePathRejection::PathExtraction(e) => e.message@,
        }
    }

    /// The HTTP status this rejection surfaces to the client.
    pub open spec fn spec_status(&self) -> u16 {
        match self {
            SafePathRejection::TraversalAttack => 400u16,
            SafePathRejection::PathExtraction(e) => e.status,
        }
    }

    /// The message body: the fixed rejection message for a traversal
    /// verdict, the upstream message otherwise.
    pub fn message(&self) -> (r: String)
        ensures
            r@ == self.spec_message(),
    {
        match self {
            SafePathRejection::TraversalAttack => rejection_message().to_owned(),
            SafePathRejection::PathExtraction(e) => e.message.clone(),
        }
    }

    /// The HTTP status: 400 for a traversal verdict, the upstream status
    /// otherwise.
    pub fn status(&self) -> (r: u16)
        ensures
            r == self.spec_status(),
    {
        match self {
            SafePathRejection::TraversalAttack => 400,
            SafePathRejection::PathExtraction(e) => e.status,
        }
    }
}

/// A path string that went through the classifier and came back clean:
/// every component of it is a current-directory marker or a normal named
/// segment.  The only way to obtain one is through the entry points below.
#[derive(Debug)]
pub struct SafePath {
    path: String,
}

impl View for SafePath {
    type V = Seq<char>;

    closed spec fn view(&self) -> Seq<char> {
        self.path@
    }
}

impl SafePath {
    #[verifier::type_invariant]
    spec fn inv(&self) -> bool {
        !is_traversal(self.path@)
    }

    /// The validated path string.  What comes back is certified free of
    /// traversal-capable components.
    pub fn as_str(&self) -> (r: &str)
        ensures
            r@ == self@,
            !is_traversal(self@),
    {
        proof {
            use_type_invariant(self);
        }
        self.path.as_str()
    }

    /// The classifier's typed entry point: accepts `raw` exactly when it
    /// contains no traversal-capable component, wrapping it as a
    /// [`SafePath`]; otherwise rejects with a traversal verdict.
    pub fn classify(raw: String) -> (r: Result<SafePath, SafePathRejection>)
        ensures
            r is Ok <==> !is_traversal(raw@),
            (r matches Ok(p) ==> p@ == raw@),
            (r matches Err(e) ==> e is TraversalAttack),
    {
        if is_traversal_attack(raw.as_str()) {
            Err(SafePathRejection::TraversalAttack)
        } else {
            Ok(SafePath { path: raw })
        }
    }

    /// Route-parameter extraction: takes the result of the upstream route
    /// parameter decode.  A decode failure is forwarded unchanged and
    /// classification never runs; a decoded string is classified, and a
    /// traversal verdict carries status 400 and the fixed message.
    pub fn from_route(decoded: Result<String, PathExtractionError>) -> (r: Result<
        SafePath,
        SafePathRejection,
    >)
        ensures
            (decoded matches Ok(raw) ==> {
                &&& r is Ok <==> route_accepts(raw@)
                &&& (r matches Ok(p) ==> p@ == raw@)
                &&& (r matches Err(e) ==> e is TraversalAttack)
            }),
            (decoded matches Err(e) ==> r == Err::<SafePath, SafePathRejection>(
                SafePathRejection::PathExtraction(e),
            )),
    {
        match decoded {
            Ok(raw) => SafePath::classify(raw),
            Err(e) => Err(SafePathRejection::PathExtraction(e)),
        }
    }

    /// Form-field extraction: classifies a string decoded from a
    /// form-encoded body.  A traversal verdict carries the fixed message,
    /// to be raised as a deserialization failure by the body decoder.
    pub fn from_form_value(raw: String) -> (r: Result<SafePath, SafePathRejection>)
        ensures
            r is Ok <==> form_accepts(raw@),
            (r matches Ok(p) ==> p@ == raw@),
            (r matches Err(e) ==> e is TraversalAttack),
    {
        SafePath::classify(raw)
    }

    /// JSON-field extraction: classifies a string decoded from a JSON body.
    /// Identical contract to the form channel: same verdicts, same message.
    pub fn from_json_value(raw: String) -> (r: Result<SafePath, SafePathRejection>)
        ensures
            r is Ok <==> json_accepts(raw@),
            (r matches Ok(p) ==> p@ == raw@),
            (r matches Err(e) ==> e is TraversalAttack),
    {
        SafePath::classify(raw)
    }
}

/// The route channel's acceptance condition for a decoded string.
pub open spec fn route_accepts(s: Seq<char>) -> bool {
    !is_traversal(s)
}

/// The form channel's acceptance condition for a decoded string.
pub open spec fn form_accepts(s: Seq<char>) -> bool {
    !is_traversal(s)
}

/// The JSON channel's acceptance condition for a decoded string.
pub open spec fn json_accepts(s: Seq<char>) -> bool {
    !is_traversal(s)
}

/// Law: the three channels accept exactly the same raw strings, and a
/// traversal verdict carries the same fixed message on every channel.
pub proof fn lemma_channel_equivalence(s: Seq<char>)
    ensures
        route_accepts(s) == form_accepts(s),
        form_accepts(s) == json_accepts(s),
        SafePathRejection::TraversalAttack.spec_message() == spec_rejection_message(),
{
}

/// Law: running the classifier once more on the string held by an existing
/// `SafePath` always comes back clean.  The result is proved to be `true`
/// for every `SafePath` that can exist.
pub fn revalidation_accepts(p: &SafePath) -> (accepted: bool)
    ensures
        accepted,
{
    !is_traversal_attack(p.as_str())
}

} // verus!
