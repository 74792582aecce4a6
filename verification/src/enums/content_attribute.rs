//! The attributes of a content rating.
use vstd::prelude::*;
use crate::element::Element;
use crate::enums::kinds::ContentState;
use crate::error::{ParseError, ParseErrorView};
use crate::text::str_eq;
use crate::views::result_view;
use crate::walk::FromElement;
use crate::model::{lemma_same_attribute, lemma_same_text};

verus! {

/// OARS attribute: a kind of content, and how intense it is.
#[derive(Clone, Copy, Debug, PartialEq, Eq, Structural)]
#[non_exhaustive]
pub enum ContentAttribute {
    /// Defined as fictional characters depicted in an animated film or a comic strip which do not
    /// look human.
    ViolenceCartoon(ContentState),
    /// Defined as characters easily distinguishable from reality.
    ViolenceFantasy(ContentState),
    /// Defined as characters not easily distinguishable from reality.
    ViolenceRealistic(ContentState),
    /// Defined as the killing or wounding of people.
    ViolenceBloodshed(ContentState),
    /// Defined as any unwanted sexual act or activity.
    ViolenceSexual(ContentState),
    /// Defined as the action of desecrating something, typically a human body.
    ViolenceDesecration(ContentState),
    /// Defined as working without proper remuneration or appreciation.
    ViolenceSlavery(ContentState),
    /// Defined as violence targeted to places of worship.
    ViolenceWorship(ContentState),
    /// Defined as usage of alcohol or seeing a character consumes one.
    DrugsAlcohol(ContentState),
    /// Defined as an addictive drug affecting mood or behaviour that is specifically illegal in at
    /// least one country.
    DrugsNarcotics(ContentState),
    /// Defined as any nicotine-rich product.
    DrugsTobacco(ContentState),
    /// Defined as a state of undress, and in this case specifically nudity likely to
    /// cause offense.
    SexNudity(ContentState),
    /// Defined as in reference to a sexual act.
    SexThemes(ContentState),
    /// Defined as sexual attraction to people of one's own sex.
    SexHomosexuality(ContentState),
    /// Defined as the practice or occupation of engaging in sexual activity with someone for
    /// payment.
    SexProstitution(ContentState),
    /// Defined as voluntary interaction between a married person and a person who is not their
    /// spouse.
    SexAdultery(ContentState),
    /// Defined as appearance of human or human-like characters that are sexualized in some way.
    SexAppearance(ContentState),
    /// Defined as blasphemous or obscene language.
    LanguageProfanity(ContentState),
    /// Defined as the quality of being amusing.
    LanguageHumor(ContentState),
    /// Defined as the unjust or prejudicial treatment of different categories of people, especially
    /// on the grounds of race, age, or sex.
    LanguageDiscrimination(ContentState),
    /// Defined as any messaging system connected to the Internet.
    SocialChat(ContentState),
    /// Defined as sharing information with a legal entity typically used for advertising or for
    /// sending back diagnostic data.
    SocialInfo(ContentState),
    /// Defined as any multimedia messaging system connected to the Internet.
    SocialAudio(ContentState),
    /// Defined as sharing your physical real-time location.
    SocialLocation(ContentState),
    /// Defined as sharing identifiable details with other users to allow out-of-band communication.
    SocialContacts(ContentState),
    /// Defined as the activity of producing advertisements for commercial products or services.
    MoneyAdvertising(ContentState),
    /// Defined as items or points that a user can buy for use within a virtual world to improve a
    /// character or enhance the playing experience.
    MoneyPurchasing(ContentState),
    /// Defined as taking a risky action in the hope of a desired result.
    MoneyGambling(ContentState),
}

impl View for ContentAttribute {
    type V = ContentAttribute;

    open spec fn view(&self) -> ContentAttribute {
        *self
    }
}

/// The attribute with identifier `id` and intensity `state`.
pub open spec fn attribute_of(id: Seq<char>, state: ContentState) -> Option<ContentAttribute> {
    if id == "violence-cartoon"@ {
        Some(ContentAttribute::ViolenceCartoon(state))
    } else if id == "violence-fantasy"@ {
        Some(ContentAttribute::ViolenceFantasy(state))
    } else if id == "violence-bloodshed"@ {
        Some(ContentAttribute::ViolenceBloodshed(state))
    } else if id == "violence-sexual"@ {
        Some(ContentAttribute::ViolenceSexual(state))
    } else if id == "violence-desecration"@ {
        Some(ContentAttribute::ViolenceDesecration(state))
    } else if id == "violence-slavery"@ {
        Some(ContentAttribute::ViolenceSlavery(state))
    } else if id == "violence-realistic"@ {
        Some(ContentAttribute::ViolenceRealistic(state))
    } else if id == "violence-worship"@ {
        Some(ContentAttribute::ViolenceWorship(state))
    } else if id == "drugs-alcohol"@ {
        Some(ContentAttribute::DrugsAlcohol(state))
    } else if id == "drugs-narcotics"@ {
        Some(ContentAttribute::DrugsNarcotics(state))
    } else if id == "drugs-tobacco"@ {
        Some(ContentAttribute::DrugsTobacco(state))
    } else if id == "sex-nudity"@ {
        Some(ContentAttribute::SexNudity(state))
    } else if id == "sex-themes"@ {
        Some(ContentAttribute::SexThemes(state))
    } else if id == "sex-homosexuality"@ {
        Some(ContentAttribute::SexHomosexuality(state))
    } else if id == "sex-prostitution"@ {
        Some(ContentAttribute::SexProstitution(state))
    } else if id == "sex-adultery"@ {
        Some(ContentAttribute::SexAdultery(state))
    } else if id == "sex-appearance"@ {
        Some(ContentAttribute::SexAppearance(state))
    } else if id == "language-profanity"@ {
        Some(ContentAttribute::LanguageProfanity(state))
    } else if id == "language-humor"@ {
        Some(ContentAttribute::LanguageHumor(state))
    } else if id == "language-discrimination"@ {
        Some(ContentAttribute::LanguageDiscrimination(state))
    } else if id == "social-chat"@ {
        Some(ContentAttribute::SocialChat(state))
    } else if id == "social-info"@ {
        Some(ContentAttribute::SocialInfo(state))
    } else if id == "social-audio"@ {
        Some(ContentAttribute::SocialAudio(state))
    } else if id == "social-location"@ {
        Some(ContentAttribute::SocialLocation(state))
    } else if id == "social-contacts"@ {
        Some(ContentAttribute::SocialContacts(state))
    } else if id == "money-advertising"@ {
        Some(ContentAttribute::MoneyAdvertising(state))
    } else if id == "money-purchasing"@ {
        Some(ContentAttribute::MoneyPurchasing(state))
    } else if id == "money-gambling"@ {
        Some(ContentAttribute::MoneyGambling(state))
    } else {
        None
    }
}

/// The attribute with identifier `id` and intensity `state`.
pub fn read_attribute_of(id: &str, state: ContentState) -> (r: Option<ContentAttribute>)
    ensures
        r == attribute_of(id@, state),
{
    if str_eq(id, "violence-cartoon") {
        Some(ContentAttribute::ViolenceCartoon(state))
    } else if str_eq(id, "violence-fantasy") {
        Some(ContentAttribute::ViolenceFantasy(state))
    } else if str_eq(id, "violence-bloodshed") {
        Some(ContentAttribute::ViolenceBloodshed(state))
    } else if str_eq(id, "violence-sexual") {
        Some(ContentAttribute::ViolenceSexual(state))
    } else if str_eq(id, "violence-desecration") {
        Some(ContentAttribute::ViolenceDesecration(state))
    } else if str_eq(id, "violence-slavery") {
        Some(ContentAttribute::ViolenceSlavery(state))
    } else if str_eq(id, "violence-realistic") {
        Some(ContentAttribute::ViolenceRealistic(state))
    } else if str_eq(id, "violence-worship") {
        Some(ContentAttribute::ViolenceWorship(state))
    } else if str_eq(id, "drugs-alcohol") {
        Some(ContentAttribute::DrugsAlcohol(state))
    } else if str_eq(id, "drugs-narcotics") {
        Some(ContentAttribute::DrugsNarcotics(state))
    } else if str_eq(id, "drugs-tobacco") {
        Some(ContentAttribute::DrugsTobacco(state))
    } else if str_eq(id, "sex-nudity") {
        Some(ContentAttribute::SexNudity(state))
    } else if str_eq(id, "sex-themes") {
        Some(ContentAttribute::SexThemes(state))
    } else if str_eq(id, "sex-homosexuality") {
        Some(ContentAttribute::SexHomosexuality(state))
    } else if str_eq(id, "sex-prostitution") {
        Some(ContentAttribute::SexProstitution(state))
    } else if str_eq(id, "sex-adultery") {
        Some(ContentAttribute::SexAdultery(state))
    } else if str_eq(id, "sex-appearance") {
        Some(ContentAttribute::SexAppearance(state))
    } else if str_eq(id, "language-profanity") {
        Some(ContentAttribute::LanguageProfanity(state))
    } else if str_eq(id, "language-humor") {
        Some(ContentAttribute::LanguageHumor(state))
    } else if str_eq(id, "language-discrimination") {
        Some(ContentAttribute::LanguageDiscrimination(state))
    } else if str_eq(id, "social-chat") {
        Some(ContentAttribute::SocialChat(state))
    } else if str_eq(id, "social-info") {
        Some(ContentAttribute::SocialInfo(state))
    } else if str_eq(id, "social-audio") {
        Some(ContentAttribute::SocialAudio(state))
    } else if str_eq(id, "social-location") {
        Some(ContentAttribute::SocialLocation(state))
    } else if str_eq(id, "social-contacts") {
        Some(ContentAttribute::SocialContacts(state))
    } else if str_eq(id, "money-advertising") {
        Some(ContentAttribute::MoneyAdvertising(state))
    } else if str_eq(id, "money-purchasing") {
        Some(ContentAttribute::MoneyPurchasing(state))
    } else if str_eq(id, "money-gambling") {
        Some(ContentAttribute::MoneyGambling(state))
    } else {
        None
    }
}

impl ContentAttribute {
    /// The attribute that a `content_attribute` element denotes: its text,
    /// which is required, is the intensity; its `id` attribute, which is
    /// required too, names the kind of content.
    pub open spec fn spec_try_from(e: Element) -> Result<ContentAttribute, ParseErrorView> {
        match e.spec_text() {
            None => Err(ParseErrorView::MissingValue("content-attribute"@)),
            Some(val) => match ContentState::spec_from_str(val) {
                None => Err(ParseErrorView::InvalidValue(val, "$value"@, "content-attribute"@)),
                Some(state) => match e.spec_attribute("id"@) {
                    None => Err(ParseErrorView::MissingAttribute("id"@, "content-attribute"@)),
                    Some(id) => match attribute_of(id, state) {
                        Some(a) => Ok(a),
                        None => Err(ParseErrorView::InvalidValue(id, "id"@, "content-attribute"@)),
                    },
                },
            },
        }
    }
}

impl ContentAttribute {
    /// Reads the attribute that `e` denotes: see [`ContentAttribute::spec_try_from`].
    pub fn try_from(e: &Element) -> (r: Result<Self, ParseError>)
        ensures
            result_view(r) == ContentAttribute::spec_try_from(*e),
    {
        let val = match e.get_text() {
            Some(v) => v,
            None => { return Err(ParseError::missing_value("content-attribute")); },
        };
        let state = match ContentState::from_str(val.as_str()) {
            Ok(s) => s,
            Err(_) => {
                return Err(ParseError::invalid_value(val.as_str(), "$value", "content-attribute"));
            },
        };
        let id = match e.attribute("id") {
            Some(id) => id.as_str(),
            None => { return Err(ParseError::missing_attribute("id", "content-attribute")); },
        };
        match read_attribute_of(id, state) {
            Some(a) => Ok(a),
            None => Err(ParseError::invalid_value(id, "id", "content-attribute")),
        }
    }
}

impl FromElement for ContentAttribute {
    open spec fn spec_from_element(e: Element) -> Result<ContentAttribute, ParseErrorView> {
        ContentAttribute::spec_try_from(e)
    }

    fn from_element(e: &Element) -> (r: Result<Self, ParseError>) {
        ContentAttribute::try_from(e)
    }

    proof fn lemma_model_decides(a: Element, b: Element) {
        lemma_same_text(a, b);
        lemma_same_attribute(a, b, "id"@);
    }
}

} // verus!
