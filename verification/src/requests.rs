use vstd::prelude::*;
use vstd::string::StringExecFns;
use crate::feature::{Features, FieldToggles, Variables};
use crate::json::{json_view, rendered, with_member_view, Json, JsonNumber, JsonView};
use crate::param_builder::{switched, Builder, ParamBuilder};
use crate::text::concat;

verus! {

/// The method of a request.
#[derive(Debug, Clone, Copy, PartialEq, Eq, Structural)]
pub enum Method {
    Get,
}

/// The three parameters of a query, each the text of a JSON object.
#[derive(Debug)]
pub struct Params {
    pub features: String,
    pub variables: String,
    pub field_toggles: Option<String>,
}

/// A request to the platform's query interface.
#[derive(Debug)]
pub struct Payload {
    pub method: Method,
    pub url: String,
    pub params: Params,
}

/// `text` with every byte but letters, digits, `-`, `_`, `.` and `~` written
/// as a percent sign and two hexadecimal digits.
pub uninterp spec fn url_encoded(text: Seq<char>) -> Seq<char>;

/// Percent-encodes a text with `urlencoding::encode`. The result is a
/// function of the text alone; the contract gives it the name
/// `url_encoded`.
#[verifier::external_body]
fn url_encode(text: &str) -> (r: String)
    ensures
        r@ == url_encoded(text@),
{
    urlencoding::encode(text).into_owned()
}

impl Params {
    /// The parameters as the query of an address.
    pub open spec fn query(self) -> Seq<char> {
        let base = "features="@ + url_encoded(self.features@) + "&variables="@ + url_encoded(
            self.variables@,
        );
        match self.field_toggles {
            Some(toggles) => base + "&fieldToggles="@ + url_encoded(toggles@),
            None => base,
        }
    }

    pub fn to_string(&self) -> (r: String)
        ensures
            r@ == self.query(),
    {
        let mut r = concat("features=", url_encode(self.features.as_str()).as_str());
        r.append("&variables=");
        r.append(url_encode(self.variables.as_str()).as_str());
        match &self.field_toggles {
            Some(toggles) => {
                r.append("&fieldToggles=");
                r.append(url_encode(toggles.as_str()).as_str());
            },
            None => {},
        }
        r
    }
}

/// The address of the query for a user's likes.
pub open spec fn likes_address() -> Seq<char> {
    "https://x.com/i/api/graphql/eQl7iWsCr2fChppuJdAeRw/Likes"@
}

/// How many likes a page holds where the caller names no number.
pub const DEFAULT_PAGE_SIZE: u32 = 5;

/// The features that the query for likes switches on.
pub open spec fn likes_enabled() -> Seq<Features> {
    seq![
        Features::ProfileLabelImprovementsPcfLabelInPostEnabled,
        Features::RwebTipjarConsumptionEnabled,
        Features::VerifiedPhoneLabelEnabled,
        Features::CreatorSubscriptionsTweetPreviewApiEnabled,
        Features::ResponsiveWebGraphqlTimelineNavigationEnabled,
        Features::CommunitiesWebEnableTweetCommunityResultsFetch,
        Features::C9sTweetAnatomyModeratorBadgeEnabled,
        Features::ResponsiveWebGrokAnalyzePostFollowupsEnabled,
        Features::ResponsiveWebGrokShareAttachmentEnabled,
        Features::ArticlesPreviewEnabled,
        Features::ResponsiveWebEditTweetApiEnabled,
        Features::GraphqlIsTranslatableRwebTweetIsTranslatableEnabled,
        Features::ViewCountsEverywhereApiEnabled,
        Features::LongformNotetweetsConsumptionEnabled,
        Features::ResponsiveWebTwitterArticleTweetConsumptionEnabled,
        Features::FreedomOfSpeechNotReachFetchEnabled,
        Features::StandardizedNudgesMisinfo,
        Features::TweetWithVisibilityResultsPreferGqlLimitedActionsPolicyEnabled,
        Features::LongformNotetweetsRichTextReadEnabled,
        Features::LongformNotetweetsInlineMediaEnabled,
        Features::ResponsiveWebGrokImageAnnotationEnabled,
        Features::ResponsiveWebGrokAnalysisButtonFromBackend,
    ]
}

/// The features that the query for likes switches off.
pub open spec fn likes_disabled() -> Seq<Features> {
    seq![
        Features::RwebVideoScreenEnabled,
        Features::ResponsiveWebGraphqlSkipUserProfileImageExtensionsEnabled,
        Features::PremiumContentApiReadEnabled,
        Features::ResponsiveWebGrokAnalyzeButtonFetchTrendsEnabled,
        Features::ResponsiveWebJetfuelFrame,
        Features::TweetAwardsWebTippingEnabled,
        Features::ResponsiveWebGrokShowGrokTranslatedPost,
        Features::CreatorSubscriptionsQuoteTweetPreviewEnabled,
        Features::ResponsiveWebEnhanceCardsEnabled,
    ]
}

/// The variables that the query for likes switches off.
pub open spec fn likes_variables_off() -> Seq<Variables> {
    seq![
        Variables::IncludePromotedContent,
        Variables::WithClientEventToken,
        Variables::WithBirdwatchNotes,
        Variables::WithVoice,
        Variables::WithV2timeline,
    ]
}

/// The features of the query for likes.
pub open spec fn likes_features() -> Seq<(Seq<char>, JsonView)> {
    switched(switched(Seq::empty(), likes_enabled(), true), likes_disabled(), false)
}

/// The variables of the query for the likes of the user `id`: the user,
/// the page size, the switches, and the cursor if there is one.
pub open spec fn likes_variables(id: Seq<char>, count: Option<u32>, cursor: Option<Seq<char>>) -> Seq<
    (Seq<char>, JsonView),
> {
    let size = match count {
        Some(n) => n,
        None => DEFAULT_PAGE_SIZE,
    };
    let named = with_member_view(
        with_member_view(Seq::empty(), "userId"@, JsonView::Str(id)),
        "count"@,
        JsonView::Number(JsonNumber::Unsigned(size as u64)),
    );
    let switches = switched(named, likes_variables_off(), false);
    match cursor {
        Some(c) => with_member_view(switches, "cursor"@, JsonView::Str(c)),
        None => switches,
    }
}

/// The field toggles of the query for likes.
pub open spec fn likes_field_toggles() -> Seq<(Seq<char>, JsonView)> {
    switched(Seq::empty(), seq![FieldToggles::WithArticlePlainText], false)
}

fn enabled_features() -> (r: Vec<Features>)
    ensures
        r@ == likes_enabled(),
{
    let r = vec![
        Features::ProfileLabelImprovementsPcfLabelInPostEnabled,
        Features::RwebTipjarConsumptionEnabled,
        Features::VerifiedPhoneLabelEnabled,
        Features::CreatorSubscriptionsTweetPreviewApiEnabled,
        Features::ResponsiveWebGraphqlTimelineNavigationEnabled,
        Features::CommunitiesWebEnableTweetCommunityResultsFetch,
        Features::C9sTweetAnatomyModeratorBadgeEnabled,
        Features::ResponsiveWebGrokAnalyzePostFollowupsEnabled,
        Features::ResponsiveWebGrokShareAttachmentEnabled,
        Features::ArticlesPreviewEnabled,
        Features::ResponsiveWebEditTweetApiEnabled,
        Features::GraphqlIsTranslatableRwebTweetIsTranslatableEnabled,
        Features::ViewCountsEverywhereApiEnabled,
        Features::LongformNotetweetsConsumptionEnabled,
        Features::ResponsiveWebTwitterArticleTweetConsumptionEnabled,
        Features::FreedomOfSpeechNotReachFetchEnabled,
        Features::StandardizedNudgesMisinfo,
        Features::TweetWithVisibilityResultsPreferGqlLimitedActionsPolicyEnabled,
        Features::LongformNotetweetsRichTextReadEnabled,
        Features::LongformNotetweetsInlineMediaEnabled,
        Features::ResponsiveWebGrokImageAnnotationEnabled,
        Features::ResponsiveWebGrokAnalysisButtonFromBackend,
    ];
    assert(r@ =~= likes_enabled());
    r
}

fn disabled_features() -> (r: Vec<Features>)
    ensures
        r@ == likes_disabled(),
{
    let r = vec![
        Features::RwebVideoScreenEnabled,
        Features::ResponsiveWebGraphqlSkipUserProfileImageExtensionsEnabled,
        Features::PremiumContentApiReadEnabled,
        Features::ResponsiveWebGrokAnalyzeButtonFetchTrendsEnabled,
        Features::ResponsiveWebJetfuelFrame,
        Features::TweetAwardsWebTippingEnabled,
        Features::ResponsiveWebGrokShowGrokTranslatedPost,
        Features::CreatorSubscriptionsQuoteTweetPreviewEnabled,
        Features::ResponsiveWebEnhanceCardsEnabled,
    ];
    assert(r@ =~= likes_disabled());
    r
}

fn disabled_variables() -> (r: Vec<Variables>)
    ensures
        r@ == likes_variables_off(),
{
    let r = vec![
        Variables::IncludePromotedContent,
        Variables::WithClientEventToken,
        Variables::WithBirdwatchNotes,
        Variables::WithVoice,
        Variables::WithV2timeline,
    ];
    assert(r@ =~= likes_variables_off());
    r
}

/// The request for one page of the likes of the user `id`: `count` likes,
/// from `cursor` on.
pub fn likes(id: String, count: Option<u32>, cursor: Option<String>) -> (p: Payload)
    ensures
        p.method == Method::Get,
        p.url@ == likes_address(),
        p.params.features@ == rendered(JsonView::Object(likes_features())),
        p.params.variables@ == rendered(
            JsonView::Object(likes_variables(id@, count, cursor.deep_view())),
        ),
        p.params.field_toggles.deep_view() == Some(rendered(JsonView::Object(likes_field_toggles()))),
{
    let mut feature_builder = ParamBuilder::<Features>::new();
    let mut variable_builder = ParamBuilder::<Variables>::new();
    let mut field_toggles_builder = ParamBuilder::<FieldToggles>::new();

    feature_builder.enable(enabled_features());
    feature_builder.disable(disabled_features());

    let size = match count {
        Some(n) => n,
        None => DEFAULT_PAGE_SIZE,
    };
    let user = Json::Str(id);
    assert(json_view(user) == JsonView::Str(id@));
    variable_builder.set("userId", user);
    variable_builder.set("count", Json::number(size as u64));
    assert(json_view(Json::Number(JsonNumber::Unsigned(size as u64))) == JsonView::Number(
        JsonNumber::Unsigned(size as u64),
    ));
    variable_builder.disable(disabled_variables());

    field_toggles_builder.disable(FieldToggles::WithArticlePlainText);

    match cursor {
        Some(c) => {
            let value = Json::Str(c);
            assert(json_view(value) == JsonView::Str(c@));
            variable_builder.set("cursor", value);
        },
        None => {},
    }

    let params = Params {
        features: feature_builder.build(),
        variables: variable_builder.build(),
        field_toggles: Some(field_toggles_builder.build()),
    };
    Payload {
        method: Method::Get,
        url: String::from_str("https://x.com/i/api/graphql/eQl7iWsCr2fChppuJdAeRw/Likes"),
        params,
    }
}

} // verus!
