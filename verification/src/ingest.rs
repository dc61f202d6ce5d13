use vstd::prelude::*;

use crate::codec::{b64_decoding_of, decode_inline_payload};
use crate::errors::StoreError;
use crate::ext::{normalize_extension, normalized_extension, opt_view};
use crate::ident::{valid_id, validate_attachment_id};
use crate::listing::{models, sweep_names, sweep_targets, DirEntry};
use crate::paths::{build_attachment_path, joined_path, source_extension_of};

verus! {

/// Everything the host must do to ingest an inline payload: remove the files
/// named in `remove` from the managed directory, then write `bytes` to
/// `path`. The write's reported byte size is `bytes`' length.
pub struct WritePlan {
    pub remove: Vec<String>,
    pub file_name: String,
    pub path: String,
    pub bytes: Vec<u8>,
}

/// Everything the host must do to ingest a copy of an external file: remove
/// the files named in `remove`, then copy the source's bytes to `path`.
pub struct CopyPlan {
    pub remove: Vec<String>,
    pub file_name: String,
    pub path: String,
}

/// The extension a copy-ingest uses: the caller's, or, when the caller gives
/// none, the one derived from the source path's own file name.
pub open spec fn effective_extension(given: Option<Seq<char>>, source_path: Seq<char>) -> Option<
    Seq<char>,
> {
    match given {
        Some(e) => Some(e),
        None => source_extension_of(source_path),
    }
}

/// Plans an inline-payload ingest for `attachment_id` into `attachment_dir`,
/// whose current listing is `entries`. A malformed identifier or payload is
/// rejected before the plan asks the host to remove anything, so a rejected
/// call leaves the identifier's existing file in place.
pub fn plan_inline_write(
    attachment_dir: &str,
    attachment_id: &str,
    payload: &str,
    extension: Option<String>,
    entries: &Vec<DirEntry>,
) -> (r: Result<WritePlan, StoreError>)
    ensures
        r is Ok <==> valid_id(attachment_id@) && b64_decoding_of(payload@) is Some,
        attachment_id@.len() == 0 ==> r == Err::<WritePlan, StoreError>(
            StoreError::EmptyIdentifier,
        ),
        attachment_id@.len() > 0 && !valid_id(attachment_id@) ==> r == Err::<WritePlan, StoreError>(
            StoreError::InvalidIdentifierCharacter,
        ),
        valid_id(attachment_id@) && b64_decoding_of(payload@) is None ==> r == Err::<
            WritePlan,
            StoreError,
        >(StoreError::MalformedPayload),
        r matches Ok(p) ==> ({
            &&& p.remove.deep_view() == sweep_names(models(entries@), attachment_id@)
            &&& p.file_name@ == attachment_id@ + normalized_extension(opt_view(extension))
            &&& p.path@ == joined_path(attachment_dir@, p.file_name@)
            &&& b64_decoding_of(payload@) == Some(p.bytes@)
        }),
{
    match validate_attachment_id(attachment_id) {
        Ok(()) => (),
        Err(e) => {
            return Err(e);
        },
    }
    let remove = sweep_targets(entries, attachment_id);
    let ext = normalize_extension(extension);
    let bytes = match decode_inline_payload(payload) {
        Ok(b) => b,
        Err(e) => {
            return Err(e);
        },
    };
    let file_name = String::from_str(attachment_id).concat(ext.as_str());
    let path = build_attachment_path(attachment_dir, attachment_id, ext.as_str());
    Ok(WritePlan { remove, file_name, path, bytes })
}

/// Plans a copy ingest for `attachment_id`: the source must exist (the host
/// reports whether it does); the extension falls back to the source's own.
/// The source path is trusted caller input and is not confined.
pub fn plan_copy_write(
    attachment_dir: &str,
    attachment_id: &str,
    source_path: &str,
    source_exists: bool,
    extension: Option<String>,
    entries: &Vec<DirEntry>,
) -> (r: Result<CopyPlan, StoreError>)
    ensures
        r is Ok <==> valid_id(attachment_id@) && source_exists,
        attachment_id@.len() == 0 ==> r == Err::<CopyPlan, StoreError>(StoreError::EmptyIdentifier),
        attachment_id@.len() > 0 && !valid_id(attachment_id@) ==> r == Err::<CopyPlan, StoreError>(
            StoreError::InvalidIdentifierCharacter,
        ),
        valid_id(attachment_id@) && !source_exists ==> r == Err::<CopyPlan, StoreError>(
            StoreError::SourceMissing,
        ),
        r matches Ok(p) ==> ({
            &&& p.remove.deep_view() == sweep_names(models(entries@), attachment_id@)
            &&& p.file_name@ == attachment_id@ + normalized_extension(
                effective_extension(opt_view(extension), source_path@),
            )
            &&& p.path@ == joined_path(attachment_dir@, p.file_name@)
        }),
{
    match validate_attachment_id(attachment_id) {
        Ok(()) => (),
        Err(e) => {
            return Err(e);
        },
    }
    if !source_exists {
        return Err(StoreError::SourceMissing);
    }
    let effective = match extension {
        Some(e) => Some(e),
        None => crate::paths::source_path_extension(source_path),
    };
    let ghost effective_view = opt_view(effective);
    proof {
        assert(effective_view == effective_extension(opt_view(extension), source_path@));
    }
    let remove = sweep_targets(entries, attachment_id);
    let ext = normalize_extension(effective);
    let file_name = String::from_str(attachment_id).concat(ext.as_str());
    let path = build_attachment_path(attachment_dir, attachment_id, ext.as_str());
    Ok(CopyPlan { remove, file_name, path })
}

} // verus!
