//! The catalog fetcher: the addresses of the remote endpoints, and how their answers
//! become catalog entries.

use crate::dlsite::dto::{
    DLsiteProduct, DLsiteProductFiles, DLsiteProductFromNonOwnerApi, DLsiteProductFromOwnerApi,
    DLsiteProductI18nString, DLsiteProductListFromOwnerApi, DLsiteVoiceComicAsset,
    DLsiteVoiceComicRequestInfo, DLsiteVoiceComicZipTree,
};
use crate::text::{decimal, push_decimal, starts_with, str_starts_with};
use vstd::prelude::*;
use vstd::string::StringExecFns;

verus! {

/// The selector of the node of a product page that names the group.
pub const GROUP_NAME_SELECTOR: &'static str = "#work_maker>tbody>tr>td>span>a";

/// The notation of the registration date in the answer of the public lookup.
pub const REGISTRATION_DATE_FORMAT: &'static str = "%Y-%m-%d %H:%M:%S";

/// Seconds by which the storefront's local time is ahead of UTC.
pub const STOREFRONT_UTC_OFFSET_SECS: i64 = 32400;

/// The page that is fetched first to seed the cookies of a login.
pub const LOGIN_WARM_UP_URL: &'static str = "https://www.dlsite.com/maniax/login/=/skip_register/1";

/// The login page, fetched to obtain the anti-forgery cookie, and the address to which
/// the credentials are posted.
pub const LOGIN_URL: &'static str = "https://login.dlsite.com/login";

/// The domain of the anti-forgery cookie.
pub const ANTI_FORGERY_COOKIE_DOMAIN: &'static str = "login.dlsite.com";

/// The path of the anti-forgery cookie.
pub const ANTI_FORGERY_COOKIE_PATH: &'static str = "/";

/// The name of the anti-forgery cookie.
pub const ANTI_FORGERY_COOKIE_NAME: &'static str = "XSRF-TOKEN";

/// The endpoint that counts the purchases of the session's user.
pub const PRODUCT_COUNT_URL: &'static str = "https://play.dlsite.com/api/product_count";

/// Why an answer of the remote service yields no catalog data.
#[derive(Clone, Copy, Debug, PartialEq, Eq, Structural)]
pub enum ApiError {
    /// A text has no value in any language.
    EmptyLocalizedString,
    /// The title of the purchase at `index` of a page has no value in any language.
    TitleMissing { index: usize },
    /// The group name of the purchase at `index` of a page has no value in any language.
    GroupNameMissing { index: usize },
    /// The answer lists no product.
    EmptyProductList,
    /// The answer of the public lookup does not hold the product that was asked for.
    ProductNotFound,
    /// The product page has no node that names the group.
    GroupNameNotFound,
    /// The selector of the group's node is no selector.
    InvalidSelector,
    /// The registration date is not written as expected, or lies beyond what a
    /// timestamp counts.
    InvalidRegistrationDate,
}

/// The address of page `page` of the listing of purchases.
pub open spec fn purchases_url_spec(page: u32) -> Seq<char> {
    "https://play.dlsite.com/api/purchases?page="@ + decimal(page as nat)
}

/// The address of page `page` of the listing of purchases.
pub fn purchases_url(page: u32) -> (url: String)
    ensures
        url@ == purchases_url_spec(page),
{
    let mut url = String::from_str("https://play.dlsite.com/api/purchases?page=");
    push_decimal(&mut url, page as u64);
    url
}

/// The address of the public lookup of product `id`.
pub fn product_info_url(id: &str) -> (url: String)
    ensures
        url@ == "https://www.dlsite.com/maniax/product/info/ajax?product_id="@ + id@,
{
    let mut url = String::from_str("https://www.dlsite.com/maniax/product/info/ajax?product_id=");
    url.append(id);
    url
}

/// The address of the storefront page of product `id`.
pub fn product_page_url(id: &str) -> (url: String)
    ensures
        url@ == "https://www.dlsite.com/maniax/work/=/product_id/"@ + id@ + ".html"@,
{
    let mut url = String::from_str("https://www.dlsite.com/maniax/work/=/product_id/");
    url.append(id);
    url.append(".html");
    url
}

/// The address of the file manifest of product `id`.
pub fn product_files_url(id: &str) -> (url: String)
    ensures
        url@ == "https://www.dlsite.com/maniax/api/=/product.json?workno="@ + id@,
{
    let mut url = String::from_str("https://www.dlsite.com/maniax/api/=/product.json?workno=");
    url.append(id);
    url
}

/// The text of `i18n` in the preferred language: the first that has a value, in the
/// order Japanese, English, Korean, Taiwanese, Chinese.
pub fn get_localized_string(i18n: &DLsiteProductI18nString) -> (text: Result<String, ApiError>)
    ensures
        match i18n.preferred() {
            Some(preferred) => text matches Ok(t) && t@ == preferred,
            None => text == Err::<String, ApiError>(ApiError::EmptyLocalizedString),
        },
{
    if let Some(s) = &i18n.japanese {
        Ok(s.clone())
    } else if let Some(s) = &i18n.english {
        Ok(s.clone())
    } else if let Some(s) = &i18n.korean {
        Ok(s.clone())
    } else if let Some(s) = &i18n.taiwanese {
        Ok(s.clone())
    } else if let Some(s) = &i18n.chinese {
        Ok(s.clone())
    } else {
        Err(ApiError::EmptyLocalizedString)
    }
}

/// `product` is the catalog entry of the purchase `work`: title and group name in the
/// preferred language, everything else as listed.
pub open spec fn is_entry_of(product: DLsiteProduct, work: DLsiteProductFromOwnerApi) -> bool {
    &&& product.id@ == work.id@
    &&& product.ty == work.ty
    &&& product.age == work.age
    &&& Some(product.title@) == work.title.preferred()
    &&& product.thumbnail@ == work.icon.main@
    &&& product.group_id@ == work.group.id@
    &&& Some(product.group_name@) == work.group.name.preferred()
    &&& product.registered_at == work.registered_at
}

/// What keeps the purchase at `index` from becoming a catalog entry, if anything does.
pub open spec fn mapping_error(work: DLsiteProductFromOwnerApi, index: usize) -> Option<ApiError> {
    if work.title.preferred() is None {
        Some(ApiError::TitleMissing { index })
    } else if work.group.name.preferred() is None {
        Some(ApiError::GroupNameMissing { index })
    } else {
        None
    }
}

/// No purchase before `upto` is kept from becoming a catalog entry.
pub open spec fn all_mappable(works: Seq<DLsiteProductFromOwnerApi>, upto: int) -> bool {
    forall|i: int| 0 <= i < upto ==> mapping_error(#[trigger] works[i], i as usize) is None
}

/// The catalog entry of one purchase.
pub fn make_product(work: &DLsiteProductFromOwnerApi, index: usize) -> (product: Result<
    DLsiteProduct,
    ApiError,
>)
    ensures
        match mapping_error(*work, index) {
            Some(error) => product == Err::<DLsiteProduct, ApiError>(error),
            None => product matches Ok(p) && is_entry_of(p, *work),
        },
{
    let title = match get_localized_string(&work.title) {
        Ok(title) => title,
        Err(_) => {
            return Err(ApiError::TitleMissing { index });
        },
    };
    let group_name = match get_localized_string(&work.group.name) {
        Ok(group_name) => group_name,
        Err(_) => {
            return Err(ApiError::GroupNameMissing { index });
        },
    };
    Ok(
        DLsiteProduct {
            id: work.id.clone(),
            ty: work.ty.duplicate(),
            age: work.age.duplicate(),
            title,
            thumbnail: work.icon.main.clone(),
            group_id: work.group.id.clone(),
            group_name,
            registered_at: work.registered_at,
        },
    )
}

/// The catalog entries of one page of the listing of purchases, in the page's order.
/// The page is refused as a whole with the first purchase that has no title or no
/// group name in any language.
pub fn get_products(product_list: &DLsiteProductListFromOwnerApi) -> (products: Result<
    Vec<DLsiteProduct>,
    ApiError,
>)
    ensures
        match products {
            Ok(entries) => {
                &&& all_mappable(product_list.works@, product_list.works@.len() as int)
                &&& entries@.len() == product_list.works@.len()
                &&& forall|i: int|
                    0 <= i < entries@.len() ==> is_entry_of(
                        #[trigger] entries@[i],
                        product_list.works@[i],
                    )
            },
            Err(error) => exists|i: int|
                0 <= i < product_list.works@.len() && all_mappable(product_list.works@, i)
                    && mapping_error(#[trigger] product_list.works@[i], i as usize) == Some(error),
        },
{
    let mut entries: Vec<DLsiteProduct> = Vec::new();
    let mut index: usize = 0;
    while index < product_list.works.len()
        invariant
            index <= product_list.works@.len(),
            all_mappable(product_list.works@, index as int),
            entries@.len() == index,
            forall|i: int|
                0 <= i < index ==> is_entry_of(#[trigger] entries@[i], product_list.works@[i]),
        decreases product_list.works@.len() - index,
    {
        match make_product(&product_list.works[index], index) {
            Ok(product) => {
                entries.push(product);
            },
            Err(error) => {
                assert(mapping_error(product_list.works@[index as int], index) == Some(error));
                return Err(error);
            },
        }
        index += 1;
    }
    Ok(entries)
}

/// The picture address `thumbnail` with a scheme: as it is where it begins with
/// `http`, else with `https:` put before it.
pub open spec fn absolute_thumbnail(thumbnail: Seq<char>) -> Seq<char> {
    if starts_with(thumbnail, "http"@) {
        thumbnail
    } else {
        "https:"@ + thumbnail
    }
}

/// Gives a picture address its scheme.
pub fn normalize_thumbnail(thumbnail: &str) -> (url: String)
    ensures
        url@ == absolute_thumbnail(thumbnail@),
{
    if str_starts_with(thumbnail, "http") {
        String::from_str(thumbnail)
    } else {
        let mut url = String::from_str("https:");
        url.append(thumbnail);
        url
    }
}

/// The UTC timestamp of a moment whose local storefront time counts `local_seconds`
/// from the epoch; `None` where it lies beyond what a timestamp counts.
pub open spec fn storefront_to_utc_spec(local_seconds: i64) -> Option<i64> {
    if local_seconds - STOREFRONT_UTC_OFFSET_SECS >= i64::MIN {
        Some((local_seconds - STOREFRONT_UTC_OFFSET_SECS) as i64)
    } else {
        None
    }
}

/// Turns storefront time, nine hours ahead of UTC the whole year, into UTC.
pub fn storefront_to_utc(local_seconds: i64) -> (utc: Option<i64>)
    ensures
        utc == storefront_to_utc_spec(local_seconds),
{
    if local_seconds >= i64::MIN + STOREFRONT_UTC_OFFSET_SECS {
        Some(local_seconds - STOREFRONT_UTC_OFFSET_SECS)
    } else {
        None
    }
}

/// The seconds from the epoch to the calendar date and time that `text` writes in the
/// notation `format`, read without any time zone; `None` where `text` is not written in
/// that notation.
pub uninterp spec fn naive_datetime_seconds(text: Seq<char>, format: Seq<char>) -> Option<i64>;

/// Calls `chrono::NaiveDateTime::parse_from_str` and counts the seconds of the result
/// with `and_utc().timestamp()`. The contract only names the outcome: it is the same for the
/// same text and format, and nothing more is claimed of it.
#[verifier::external_body]
fn parse_naive_datetime(text: &str, format: &str) -> (seconds: Option<i64>)
    ensures
        seconds == naive_datetime_seconds(text@, format@),
{
    match chrono::NaiveDateTime::parse_from_str(text, format) {
        Ok(datetime) => Some(datetime.and_utc().timestamp()),
        Err(_) => None,
    }
}

/// The UTC timestamp that the reading `local` of a registration date stands for.
pub fn interpret_registration_date(local: Option<i64>) -> (utc: Result<i64, ApiError>)
    ensures
        utc == match local {
            Some(seconds) => match storefront_to_utc_spec(seconds) {
                Some(t) => Ok::<i64, ApiError>(t),
                None => Err::<i64, ApiError>(ApiError::InvalidRegistrationDate),
            },
            None => Err::<i64, ApiError>(ApiError::InvalidRegistrationDate),
        },
{
    match local {
        Some(seconds) => match storefront_to_utc(seconds) {
            Some(t) => Ok(t),
            None => Err(ApiError::InvalidRegistrationDate),
        },
        None => Err(ApiError::InvalidRegistrationDate),
    }
}

/// Reads the registration date of the public lookup, local storefront time written as
/// `YYYY-MM-DD HH:MM:SS`, as a UTC timestamp.
pub fn parse_registration_date(text: &str) -> (utc: Result<i64, ApiError>)
    ensures
        utc == match naive_datetime_seconds(text@, REGISTRATION_DATE_FORMAT@) {
            Some(seconds) => match storefront_to_utc_spec(seconds) {
                Some(t) => Ok::<i64, ApiError>(t),
                None => Err::<i64, ApiError>(ApiError::InvalidRegistrationDate),
            },
            None => Err::<i64, ApiError>(ApiError::InvalidRegistrationDate),
        },
{
    interpret_registration_date(parse_naive_datetime(text, REGISTRATION_DATE_FORMAT))
}

/// What a search of a document for the first node that a selector addresses has found,
/// as texts.
pub open spec fn found_text(found: Option<Option<String>>) -> Option<Option<Seq<char>>> {
    match found {
        Some(Some(text)) => Some(Some(text@)),
        Some(None) => Some(None),
        None => None,
    }
}

/// The text inside the first node of the HTML document `document` that the CSS selector
/// `selector` addresses: `None` where `selector` is no selector, `Some(None)` where no
/// node is addressed.
pub uninterp spec fn first_match_text(document: Seq<char>, selector: Seq<char>) -> Option<
    Option<Seq<char>>,
>;

/// Calls `scraper::Selector::parse`, `scraper::Html::parse_document` and
/// `Html::select`, and joins the text nodes below the first element that matches. The
/// contract only names the outcome: it is the same for the same document and selector,
/// and nothing more is claimed of it.
#[verifier::external_body]
fn select_first_text(document: &str, selector: &str) -> (found: Option<Option<String>>)
    ensures
        found_text(found) == first_match_text(document@, selector@),
{
    let selector = match scraper::Selector::parse(selector) {
        Ok(selector) => selector,
        Err(_) => return None,
    };
    let html = scraper::Html::parse_document(document);
    match html.select(&selector).next() {
        Some(element) => Some(Some(element.text().collect::<String>())),
        None => Some(None),
    }
}

/// The group name that a search of a product page has found. A page without the node is
/// a failure of this one product only.
pub fn interpret_group_name(found: Option<Option<String>>) -> (name: Result<String, ApiError>)
    ensures
        match found {
            Some(Some(text)) => name matches Ok(n) && n@ == text@,
            Some(None) => name == Err::<String, ApiError>(ApiError::GroupNameNotFound),
            None => name == Err::<String, ApiError>(ApiError::InvalidSelector),
        },
{
    match found {
        Some(Some(text)) => Ok(text),
        Some(None) => Err(ApiError::GroupNameNotFound),
        None => Err(ApiError::InvalidSelector),
    }
}

/// The name of the group, scraped from the storefront page `document` of a product.
pub fn get_product_group_name(document: &str) -> (name: Result<String, ApiError>)
    ensures
        match first_match_text(document@, GROUP_NAME_SELECTOR@) {
            Some(Some(text)) => name matches Ok(n) && n@ == text,
            Some(None) => name == Err::<String, ApiError>(ApiError::GroupNameNotFound),
            None => name == Err::<String, ApiError>(ApiError::InvalidSelector),
        },
{
    interpret_group_name(select_first_text(document, GROUP_NAME_SELECTOR))
}

/// The product that the public lookup has found under the id that was asked for. An
/// answer without it is a failure of this one product only.
pub fn get_product_without_group_name(found: Option<DLsiteProductFromNonOwnerApi>) -> (product:
    Result<DLsiteProductFromNonOwnerApi, ApiError>)
    ensures
        match found {
            Some(p) => product matches Ok(q) && q == p,
            None => product matches Err(error) && error == ApiError::ProductNotFound,
        },
{
    match found {
        Some(p) => Ok(p),
        None => Err(ApiError::ProductNotFound),
    }
}

/// `product` is the catalog entry of the product `id` that the public lookup describes
/// as `found`, with the group name `group_name` and the registration date read as
/// `registered_at`.
pub open spec fn is_unowned_entry(
    product: DLsiteProduct,
    id: Seq<char>,
    found: DLsiteProductFromNonOwnerApi,
    group_name: Seq<char>,
    registered_at: i64,
) -> bool {
    &&& product.id@ == id
    &&& product.ty == found.ty
    &&& product.age == found.age
    &&& product.title@ == found.title@
    &&& product.thumbnail@ == absolute_thumbnail(found.thumbnail@)
    &&& product.group_id@ == found.group_id@
    &&& product.group_name@ == group_name
    &&& product.registered_at == registered_at
}

/// The catalog entry of a product that no account owns, put together from the public
/// lookup and the group name scraped from the product's page.
pub fn get_product_from_non_owner_api(
    id: &str,
    product: &DLsiteProductFromNonOwnerApi,
    group_name: &str,
) -> (entry: Result<DLsiteProduct, ApiError>)
    ensures
        match naive_datetime_seconds(product.registered_at@, REGISTRATION_DATE_FORMAT@) {
            Some(seconds) => match storefront_to_utc_spec(seconds) {
                Some(t) => entry matches Ok(e) && is_unowned_entry(
                    e,
                    id@,
                    *product,
                    group_name@,
                    t,
                ),
                None => entry matches Err(error) && error == ApiError::InvalidRegistrationDate,
            },
            None => entry matches Err(error) && error == ApiError::InvalidRegistrationDate,
        },
{
    let registered_at = match parse_registration_date(product.registered_at.as_str()) {
        Ok(registered_at) => registered_at,
        Err(error) => {
            return Err(error);
        },
    };
    Ok(
        DLsiteProduct {
            id: String::from_str(id),
            ty: product.ty.duplicate(),
            age: product.age.duplicate(),
            title: product.title.clone(),
            thumbnail: normalize_thumbnail(product.thumbnail.as_str()),
            group_id: product.group_id.clone(),
            group_name: String::from_str(group_name),
            registered_at,
        },
    )
}

/// The file manifest in the answer of the manifest endpoint: the first of the listed
/// ones. An answer that lists none is an error.
pub fn get_product_files(mut product_details_list: Vec<DLsiteProductFiles>) -> (files: Result<
    DLsiteProductFiles,
    ApiError,
>)
    ensures
        match files {
            Ok(manifest) => product_details_list@.len() > 0 && manifest == product_details_list@[0],
            Err(error) => product_details_list@.len() == 0 && error == ApiError::EmptyProductList,
        },
{
    if product_details_list.len() == 0 {
        Err(ApiError::EmptyProductList)
    } else {
        Ok(product_details_list.swap_remove(0))
    }
}

/// The address for which the cookies of a signed request descriptor are set.
pub const VOICE_COMIC_COOKIE_URL: &'static str = "https://play.dl.dlsite.com";

/// The address of the signed request descriptor of the voice or video comic `id`.
pub fn voice_comic_request_info_url(id: &str) -> (url: String)
    ensures
        url@ == "https://play.dl.dlsite.com/api/download/sign/cookie?workno="@ + id@,
{
    let mut url = String::from_str("https://play.dl.dlsite.com/api/download/sign/cookie?workno=");
    url.append(id);
    url
}

/// The address of the manifest of named assets that a request descriptor points to.
pub fn voice_comic_zip_tree_url(request_info: &DLsiteVoiceComicRequestInfo) -> (url: String)
    ensures
        url@ == request_info.url@ + "ziptree.json"@,
{
    let mut url = String::from_str(request_info.url.as_str());
    url.append("ziptree.json");
    url
}

/// One file of a voice or video comic: where it is fetched from, and the name under
/// which it is kept.
#[derive(Debug, Clone)]
pub struct VoiceComicFile {
    pub url: String,
    pub file_name: String,
}

/// The address of the file of the product `id` whose remote name is `hash` with the
/// extension `extension`.
pub open spec fn voice_comic_file_url(id: Seq<char>, hash: Seq<char>, extension: Seq<char>) -> Seq<
    char,
> {
    "https://play.dlsite.fun/work/"@ + id + "/"@ + hash + extension
}

/// Address and name of the files of `assets`, in order: for each asset its principal
/// media file, kept under the asset's name, and then, if it has one, its subtitle file,
/// kept under the asset's name with `.vtt` appended. Both lie remotely under the asset's
/// hash, as `.mp4` and `.vtt`.
pub open spec fn voice_comic_files_spec(id: Seq<char>, assets: Seq<DLsiteVoiceComicAsset>) -> Seq<
    (Seq<char>, Seq<char>),
>
    decreases assets.len(),
{
    if assets.len() == 0 {
        Seq::empty()
    } else {
        let asset = assets.last();
        let media = voice_comic_files_spec(id, assets.drop_last()).push(
            (voice_comic_file_url(id, asset.hash@, ".mp4"@), asset.name@),
        );
        if asset.has_subtitle {
            media.push((voice_comic_file_url(id, asset.hash@, ".vtt"@), asset.name@ + ".vtt"@))
        } else {
            media
        }
    }
}

/// Address and name of files.
pub open spec fn files_view(files: Seq<VoiceComicFile>) -> Seq<(Seq<char>, Seq<char>)> {
    Seq::new(files.len(), |i: int| (files[i].url@, files[i].file_name@))
}

fn voice_comic_url(id: &str, hash: &str, extension: &str) -> (url: String)
    ensures
        url@ == voice_comic_file_url(id@, hash@, extension@),
{
    let mut url = String::from_str("https://play.dlsite.fun/work/");
    url.append(id);
    url.append("/");
    url.append(hash);
    url.append(extension);
    url
}

/// The files to fetch for the voice or video comic `id`: each principal media file
/// paired with the subtitle file that shares its hash, where there is one.
pub fn voice_comic_files(id: &str, zip_tree: &DLsiteVoiceComicZipTree) -> (files: Vec<
    VoiceComicFile,
>)
    ensures
        files_view(files@) == voice_comic_files_spec(id@, zip_tree.assets@),
{
    let mut files: Vec<VoiceComicFile> = Vec::new();
    let mut i: usize = 0;
    assert(files_view(files@) =~= voice_comic_files_spec(id@, zip_tree.assets@.take(0)));
    while i < zip_tree.assets.len()
        invariant
            i <= zip_tree.assets@.len(),
            files_view(files@) == voice_comic_files_spec(id@, zip_tree.assets@.take(i as int)),
        decreases zip_tree.assets@.len() - i,
    {
        let ghost before = files_view(files@);
        proof {
            assert(zip_tree.assets@.take(i + 1).drop_last() =~= zip_tree.assets@.take(i as int));
            assert(zip_tree.assets@.take(i + 1).last() == zip_tree.assets@[i as int]);
        }
        let asset = &zip_tree.assets[i];
        files.push(
            VoiceComicFile {
                url: voice_comic_url(id, asset.hash.as_str(), ".mp4"),
                file_name: asset.name.clone(),
            },
        );
        let ghost media = before.push(
            (voice_comic_file_url(id@, asset.hash@, ".mp4"@), asset.name@),
        );
        assert(files_view(files@) =~= media);
        if asset.has_subtitle {
            let mut file_name = asset.name.clone();
            file_name.append(".vtt");
            files.push(
                VoiceComicFile { url: voice_comic_url(id, asset.hash.as_str(), ".vtt"), file_name },
            );
            assert(files_view(files@) =~= media.push(
                (voice_comic_file_url(id@, asset.hash@, ".vtt"@), asset.name@ + ".vtt"@),
            ));
        }
        i += 1;
    }
    assert(zip_tree.assets@.take(i as int) =~= zip_tree.assets@);
    files
}

} // verus!
