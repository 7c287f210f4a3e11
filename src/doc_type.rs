use vstd::prelude::*;

use crate::text::same_text;

verus! {

/// Type of a document, after the citation-style-language schema.
///
/// Each named variant stands for one exact tag of that schema; any other tag
/// is kept verbatim in `MISC`.
#[derive(Debug, Clone, PartialEq)]
pub enum DoiMetadataType {
    Article,
    ArticleJournal,
    ArticleMagazine,
    ArticleNewspaper,
    Bill,
    Book,
    Broadcast,
    Chapter,
    Classic,
    Collection,
    Dataset,
    Document,
    Entry,
    EntryDictionary,
    EntryEncyclopedia,
    Event,
    Figure,
    Graphic,
    Hearing,
    Interview,
    LegalCase,
    Legislation,
    Manuscript,
    /// A map: the tag `map`.
    GeographicMap,
    MotionPicture,
    MusicalScore,
    Pamphlet,
    PaperConference,
    Patent,
    Performance,
    Periodical,
    PersonalCommunication,
    Post,
    PostWeblog,
    Regulation,
    Report,
    Review,
    ReviewBook,
    Software,
    Song,
    Speech,
    Standard,
    Thesis,
    Treaty,
    Webpage,
    MISC(String),
}

/// The tag of a document type: the schema's tag for a named variant, the
/// kept text for `MISC`.
pub open spec fn type_tag(t: DoiMetadataType) -> Seq<char> {
    match t {
        DoiMetadataType::Article => "article"@,
        DoiMetadataType::ArticleJournal => "article-journal"@,
        DoiMetadataType::ArticleMagazine => "article-magazine"@,
        DoiMetadataType::ArticleNewspaper => "article-newspaper"@,
        DoiMetadataType::Bill => "bill"@,
        DoiMetadataType::Book => "book"@,
        DoiMetadataType::Broadcast => "broadcast"@,
        DoiMetadataType::Chapter => "chapter"@,
        DoiMetadataType::Classic => "classic"@,
        DoiMetadataType::Collection => "collection"@,
        DoiMetadataType::Dataset => "dataset"@,
        DoiMetadataType::Document => "document"@,
        DoiMetadataType::Entry => "entry"@,
        DoiMetadataType::EntryDictionary => "entry-dictionary"@,
        DoiMetadataType::EntryEncyclopedia => "entry-encyclopedia"@,
        DoiMetadataType::Event => "event"@,
        DoiMetadataType::Figure => "figure"@,
        DoiMetadataType::Graphic => "graphic"@,
        DoiMetadataType::Hearing => "hearing"@,
        DoiMetadataType::Interview => "interview"@,
        DoiMetadataType::LegalCase => "legal_case"@,
        DoiMetadataType::Legislation => "legislation"@,
        DoiMetadataType::Manuscript => "manuscript"@,
        DoiMetadataType::GeographicMap => "map"@,
        DoiMetadataType::MotionPicture => "motion_picture"@,
        DoiMetadataType::MusicalScore => "musical_score"@,
        DoiMetadataType::Pamphlet => "pamphlet"@,
        DoiMetadataType::PaperConference => "paper-conference"@,
        DoiMetadataType::Patent => "patent"@,
        DoiMetadataType::Performance => "performance"@,
        DoiMetadataType::Periodical => "periodical"@,
        DoiMetadataType::PersonalCommunication => "personal_communication"@,
        DoiMetadataType::Post => "post"@,
        DoiMetadataType::PostWeblog => "post-weblog"@,
        DoiMetadataType::Regulation => "regulation"@,
        DoiMetadataType::Report => "report"@,
        DoiMetadataType::Review => "review"@,
        DoiMetadataType::ReviewBook => "review-book"@,
        DoiMetadataType::Software => "software"@,
        DoiMetadataType::Song => "song"@,
        DoiMetadataType::Speech => "speech"@,
        DoiMetadataType::Standard => "standard"@,
        DoiMetadataType::Thesis => "thesis"@,
        DoiMetadataType::Treaty => "treaty"@,
        DoiMetadataType::Webpage => "webpage"@,
        DoiMetadataType::MISC(s) => s@,
    }
}

/// The named variant whose tag is exactly `s`, if there is one.
pub open spec fn named_type(s: Seq<char>) -> Option<DoiMetadataType> {
    if s == "article"@ {
        Some(DoiMetadataType::Article)
    } else if s == "article-journal"@ {
        Some(DoiMetadataType::ArticleJournal)
    } else if s == "article-magazine"@ {
        Some(DoiMetadataType::ArticleMagazine)
    } else if s == "article-newspaper"@ {
        Some(DoiMetadataType::ArticleNewspaper)
    } else if s == "bill"@ {
        Some(DoiMetadataType::Bill)
    } else if s == "book"@ {
        Some(DoiMetadataType::Book)
    } else if s == "broadcast"@ {
        Some(DoiMetadataType::Broadcast)
    } else if s == "chapter"@ {
        Some(DoiMetadataType::Chapter)
    } else if s == "classic"@ {
        Some(DoiMetadataType::Classic)
    } else if s == "collection"@ {
        Some(DoiMetadataType::Collection)
    } else if s == "dataset"@ {
        Some(DoiMetadataType::Dataset)
    } else if s == "document"@ {
        Some(DoiMetadataType::Document)
    } else if s == "entry"@ {
        Some(DoiMetadataType::Entry)
    } else if s == "entry-dictionary"@ {
        Some(DoiMetadataType::EntryDictionary)
    } else if s == "entry-encyclopedia"@ {
        Some(DoiMetadataType::EntryEncyclopedia)
    } else if s == "event"@ {
        Some(DoiMetadataType::Event)
    } else if s == "figure"@ {
        Some(DoiMetadataType::Figure)
    } else if s == "graphic"@ {
        Some(DoiMetadataType::Graphic)
    } else if s == "hearing"@ {
        Some(DoiMetadataType::Hearing)
    } else if s == "interview"@ {
        Some(DoiMetadataType::Interview)
    } else if s == "legal_case"@ {
        Some(DoiMetadataType::LegalCase)
    } else if s == "legislation"@ {
        Some(DoiMetadataType::Legislation)
    } else if s == "manuscript"@ {
        Some(DoiMetadataType::Manuscript)
    } else if s == "map"@ {
        Some(DoiMetadataType::GeographicMap)
    } else if s == "motion_picture"@ {
        Some(DoiMetadataType::MotionPicture)
    } else if s == "musical_score"@ {
        Some(DoiMetadataType::MusicalScore)
    } else if s == "pamphlet"@ {
        Some(DoiMetadataType::Pamphlet)
    } else if s == "paper-conference"@ {
        Some(DoiMetadataType::PaperConference)
    } else if s == "patent"@ {
        Some(DoiMetadataType::Patent)
    } else if s == "performance"@ {
        Some(DoiMetadataType::Performance)
    } else if s == "periodical"@ {
        Some(DoiMetadataType::Periodical)
    } else if s == "personal_communication"@ {
        Some(DoiMetadataType::PersonalCommunication)
    } else if s == "post"@ {
        Some(DoiMetadataType::Post)
    } else if s == "post-weblog"@ {
        Some(DoiMetadataType::PostWeblog)
    } else if s == "regulation"@ {
        Some(DoiMetadataType::Regulation)
    } else if s == "report"@ {
        Some(DoiMetadataType::Report)
    } else if s == "review"@ {
        Some(DoiMetadataType::Review)
    } else if s == "review-book"@ {
        Some(DoiMetadataType::ReviewBook)
    } else if s == "software"@ {
        Some(DoiMetadataType::Software)
    } else if s == "song"@ {
        Some(DoiMetadataType::Song)
    } else if s == "speech"@ {
        Some(DoiMetadataType::Speech)
    } else if s == "standard"@ {
        Some(DoiMetadataType::Standard)
    } else if s == "thesis"@ {
        Some(DoiMetadataType::Thesis)
    } else if s == "treaty"@ {
        Some(DoiMetadataType::Treaty)
    } else if s == "webpage"@ {
        Some(DoiMetadataType::Webpage)
    } else {
        None
    }
}

/// `t` is what reading the tag `s` gives: the named variant with that tag, or
/// else `MISC` holding `s` itself.
pub open spec fn parsed_from(t: DoiMetadataType, s: Seq<char>) -> bool {
    match named_type(s) {
        Some(n) => t == n,
        None => t matches DoiMetadataType::MISC(x) && x@ == s,
    }
}

impl DoiMetadataType {
    /// Reads a document type from its tag. The lookup is exact and
    /// case-sensitive; an unknown tag becomes `MISC` with the tag unchanged.
    pub fn new(s: &str) -> (r: Self)
        ensures
            parsed_from(r, s@),
    {
        if same_text(s, "article") {
            return Self::Article;
        }
        if same_text(s, "article-journal") {
            return Self::ArticleJournal;
        }
        if same_text(s, "article-magazine") {
            return Self::ArticleMagazine;
        }
        if same_text(s, "article-newspaper") {
            return Self::ArticleNewspaper;
        }
        if same_text(s, "bill") {
            return Self::Bill;
        }
        if same_text(s, "book") {
            return Self::Book;
        }
        if same_text(s, "broadcast") {
            return Self::Broadcast;
        }
        if same_text(s, "chapter") {
            return Self::Chapter;
        }
        if same_text(s, "classic") {
            return Self::Classic;
        }
        if same_text(s, "collection") {
            return Self::Collection;
        }
        if same_text(s, "dataset") {
            return Self::Dataset;
        }
        if same_text(s, "document") {
            return Self::Document;
        }
        if same_text(s, "entry") {
            return Self::Entry;
        }
        if same_text(s, "entry-dictionary") {
            return Self::EntryDictionary;
        }
        if same_text(s, "entry-encyclopedia") {
            return Self::EntryEncyclopedia;
        }
        if same_text(s, "event") {
            return Self::Event;
        }
        if same_text(s, "figure") {
            return Self::Figure;
        }
        if same_text(s, "graphic") {
            return Self::Graphic;
        }
        if same_text(s, "hearing") {
            return Self::Hearing;
        }
        if same_text(s, "interview") {
            return Self::Interview;
        }
        if same_text(s, "legal_case") {
            return Self::LegalCase;
        }
        if same_text(s, "legislation") {
            return Self::Legislation;
        }
        if same_text(s, "manuscript") {
            return Self::Manuscript;
        }
        if same_text(s, "map") {
            return Self::GeographicMap;
        }
        if same_text(s, "motion_picture") {
            return Self::MotionPicture;
        }
        if same_text(s, "musical_score") {
            return Self::MusicalScore;
        }
        if same_text(s, "pamphlet") {
            return Self::Pamphlet;
        }
        if same_text(s, "paper-conference") {
            return Self::PaperConference;
        }
        if same_text(s, "patent") {
            return Self::Patent;
        }
        if same_text(s, "performance") {
            return Self::Performance;
        }
        if same_text(s, "periodical") {
            return Self::Periodical;
        }
        if same_text(s, "personal_communication") {
            return Self::PersonalCommunication;
        }
        if same_text(s, "post") {
            return Self::Post;
        }
        if same_text(s, "post-weblog") {
            return Self::PostWeblog;
        }
        if same_text(s, "regulation") {
            return Self::Regulation;
        }
        if same_text(s, "report") {
            return Self::Report;
        }
        if same_text(s, "review") {
            return Self::Review;
        }
        if same_text(s, "review-book") {
            return Self::ReviewBook;
        }
        if same_text(s, "software") {
            return Self::Software;
        }
        if same_text(s, "song") {
            return Self::Song;
        }
        if same_text(s, "speech") {
            return Self::Speech;
        }
        if same_text(s, "standard") {
            return Self::Standard;
        }
        if same_text(s, "thesis") {
            return Self::Thesis;
        }
        if same_text(s, "treaty") {
            return Self::Treaty;
        }
        if same_text(s, "webpage") {
            return Self::Webpage;
        }
        Self::MISC(s.to_string())
    }

    /// The tag of this document type.
    pub fn as_str(&self) -> (r: &str)
        ensures
            r@ == type_tag(*self),
    {
        match self {
            Self::Article => "article",
            Self::ArticleJournal => "article-journal",
            Self::ArticleMagazine => "article-magazine",
            Self::ArticleNewspaper => "article-newspaper",
            Self::Bill => "bill",
            Self::Book => "book",
            Self::Broadcast => "broadcast",
            Self::Chapter => "chapter",
            Self::Classic => "classic",
            Self::Collection => "collection",
            Self::Dataset => "dataset",
            Self::Document => "document",
            Self::Entry => "entry",
            Self::EntryDictionary => "entry-dictionary",
            Self::EntryEncyclopedia => "entry-encyclopedia",
            Self::Event => "event",
            Self::Figure => "figure",
            Self::Graphic => "graphic",
            Self::Hearing => "hearing",
            Self::Interview => "interview",
            Self::LegalCase => "legal_case",
            Self::Legislation => "legislation",
            Self::Manuscript => "manuscript",
            Self::GeographicMap => "map",
            Self::MotionPicture => "motion_picture",
            Self::MusicalScore => "musical_score",
            Self::Pamphlet => "pamphlet",
            Self::PaperConference => "paper-conference",
            Self::Patent => "patent",
            Self::Performance => "performance",
            Self::Periodical => "periodical",
            Self::PersonalCommunication => "personal_communication",
            Self::Post => "post",
            Self::PostWeblog => "post-weblog",
            Self::Regulation => "regulation",
            Self::Report => "report",
            Self::Review => "review",
            Self::ReviewBook => "review-book",
            Self::Software => "software",
            Self::Song => "song",
            Self::Speech => "speech",
            Self::Standard => "standard",
            Self::Thesis => "thesis",
            Self::Treaty => "treaty",
            Self::Webpage => "webpage",
            Self::MISC(s) => s.as_str(),
        }
    }
}

/// Reading the tag of a named document type gives that type back.
pub proof fn lemma_named_type_round_trip(t: DoiMetadataType)
    requires
        !(t is MISC),
    ensures
        named_type(type_tag(t)) == Some(t),
        parsed_from(t, type_tag(t)),
{
    reveal_strlit("article");
    assert("article"@.len() == 7);
    reveal_strlit("article-journal");
    assert("article-journal"@.len() == 15);
    reveal_strlit("article-magazine");
    assert("article-magazine"@.len() == 16);
    reveal_strlit("article-newspaper");
    assert("article-newspaper"@.len() == 17);
    reveal_strlit("bill");
    assert("bill"@.len() == 4);
    reveal_strlit("book");
    assert("book"@.len() == 4);
    reveal_strlit("broadcast");
    assert("broadcast"@.len() == 9);
    reveal_strlit("chapter");
    assert("chapter"@.len() == 7);
    reveal_strlit("classic");
    assert("classic"@.len() == 7);
    reveal_strlit("collection");
    assert("collection"@.len() == 10);
    reveal_strlit("dataset");
    assert("dataset"@.len() == 7);
    reveal_strlit("document");
    assert("document"@.len() == 8);
    reveal_strlit("entry");
    assert("entry"@.len() == 5);
    reveal_strlit("entry-dictionary");
    assert("entry-dictionary"@.len() == 16);
    reveal_strlit("entry-encyclopedia");
    assert("entry-encyclopedia"@.len() == 18);
    reveal_strlit("event");
    assert("event"@.len() == 5);
    reveal_strlit("figure");
    assert("figure"@.len() == 6);
    reveal_strlit("graphic");
    assert("graphic"@.len() == 7);
    reveal_strlit("hearing");
    assert("hearing"@.len() == 7);
    reveal_strlit("interview");
    assert("interview"@.len() == 9);
    reveal_strlit("legal_case");
    assert("legal_case"@.len() == 10);
    reveal_strlit("legislation");
    assert("legislation"@.len() == 11);
    reveal_strlit("manuscript");
    assert("manuscript"@.len() == 10);
    reveal_strlit("map");
    assert("map"@.len() == 3);
    reveal_strlit("motion_picture");
    assert("motion_picture"@.len() == 14);
    reveal_strlit("musical_score");
    assert("musical_score"@.len() == 13);
    reveal_strlit("pamphlet");
    assert("pamphlet"@.len() == 8);
    reveal_strlit("paper-conference");
    assert("paper-conference"@.len() == 16);
    reveal_strlit("patent");
    assert("patent"@.len() == 6);
    reveal_strlit("performance");
    assert("performance"@.len() == 11);
    reveal_strlit("periodical");
    assert("periodical"@.len() == 10);
    reveal_strlit("personal_communication");
    assert("personal_communication"@.len() == 22);
    reveal_strlit("post");
    assert("post"@.len() == 4);
    reveal_strlit("post-weblog");
    assert("post-weblog"@.len() == 11);
    reveal_strlit("regulation");
    assert("regulation"@.len() == 10);
    reveal_strlit("report");
    assert("report"@.len() == 6);
    reveal_strlit("review");
    assert("review"@.len() == 6);
    reveal_strlit("review-book");
    assert("review-book"@.len() == 11);
    reveal_strlit("software");
    assert("software"@.len() == 8);
    reveal_strlit("song");
    assert("song"@.len() == 4);
    reveal_strlit("speech");
    assert("speech"@.len() == 6);
    reveal_strlit("standard");
    assert("standard"@.len() == 8);
    reveal_strlit("thesis");
    assert("thesis"@.len() == 6);
    reveal_strlit("treaty");
    assert("treaty"@.len() == 6);
    reveal_strlit("webpage");
    assert("webpage"@.len() == 7);
    match t {
        DoiMetadataType::Article => {},
        DoiMetadataType::ArticleJournal => {},
        DoiMetadataType::ArticleMagazine => {},
        DoiMetadataType::ArticleNewspaper => {},
        DoiMetadataType::Bill => {},
        DoiMetadataType::Book => {
            assert("bill"@[1] != "book"@[1]);
        },
        DoiMetadataType::Broadcast => {},
        DoiMetadataType::Chapter => {
            assert("article"@[0] != "chapter"@[0]);
        },
        DoiMetadataType::Classic => {
            assert("article"@[0] != "classic"@[0]);
            assert("chapter"@[1] != "classic"@[1]);
        },
        DoiMetadataType::Collection => {},
        DoiMetadataType::Dataset => {
            assert("article"@[0] != "dataset"@[0]);
            assert("chapter"@[0] != "dataset"@[0]);
            assert("classic"@[0] != "dataset"@[0]);
        },
        DoiMetadataType::Document => {},
        DoiMetadataType::Entry => {},
        DoiMetadataType::EntryDictionary => {
            assert("article-magazine"@[0] != "entry-dictionary"@[0]);
        },
        DoiMetadataType::EntryEncyclopedia => {},
        DoiMetadataType::Event => {
            assert("entry"@[1] != "event"@[1]);
        },
        DoiMetadataType::Figure => {},
        DoiMetadataType::Graphic => {
            assert("article"@[0] != "graphic"@[0]);
            assert("chapter"@[0] != "graphic"@[0]);
            assert("classic"@[0] != "graphic"@[0]);
            assert("dataset"@[0] != "graphic"@[0]);
        },
        DoiMetadataType::Hearing => {
            assert("article"@[0] != "hearing"@[0]);
            assert("chapter"@[0] != "hearing"@[0]);
            assert("classic"@[0] != "hearing"@[0]);
            assert("dataset"@[0] != "hearing"@[0]);
            assert("graphic"@[0] != "hearing"@[0]);
        },
        DoiMetadataType::Interview => {
            assert("broadcast"@[0] != "interview"@[0]);
        },
        DoiMetadataType::LegalCase => {
            assert("collection"@[0] != "legal_case"@[0]);
        },
        DoiMetadataType::Legislation => {},
        DoiMetadataType::Manuscript => {
            assert("collection"@[0] != "manuscript"@[0]);
            assert("legal_case"@[0] != "manuscript"@[0]);
        },
        DoiMetadataType::GeographicMap => {},
        DoiMetadataType::MotionPicture => {},
        DoiMetadataType::MusicalScore => {},
        DoiMetadataType::Pamphlet => {
            assert("document"@[0] != "pamphlet"@[0]);
        },
        DoiMetadataType::PaperConference => {
            assert("article-magazine"@[0] != "paper-conference"@[0]);
            assert("entry-dictionary"@[0] != "paper-conference"@[0]);
        },
        DoiMetadataType::Patent => {
            assert("figure"@[0] != "patent"@[0]);
        },
        DoiMetadataType::Performance => {
            assert("legislation"@[0] != "performance"@[0]);
        },
        DoiMetadataType::Periodical => {
            assert("collection"@[0] != "periodical"@[0]);
            assert("legal_case"@[0] != "periodical"@[0]);
            assert("manuscript"@[0] != "periodical"@[0]);
        },
        DoiMetadataType::PersonalCommunication => {},
        DoiMetadataType::Post => {
            assert("bill"@[0] != "post"@[0]);
            assert("book"@[0] != "post"@[0]);
        },
        DoiMetadataType::PostWeblog => {
            assert("legislation"@[0] != "post-weblog"@[0]);
            assert("performance"@[1] != "post-weblog"@[1]);
        },
        DoiMetadataType::Regulation => {
            assert("collection"@[0] != "regulation"@[0]);
            assert("legal_case"@[0] != "regulation"@[0]);
            assert("manuscript"@[0] != "regulation"@[0]);
            assert("periodical"@[0] != "regulation"@[0]);
        },
        DoiMetadataType::Report => {
            assert("figure"@[0] != "report"@[0]);
            assert("patent"@[0] != "report"@[0]);
        },
        DoiMetadataType::Review => {
            assert("figure"@[0] != "review"@[0]);
            assert("patent"@[0] != "review"@[0]);
            assert("report"@[2] != "review"@[2]);
        },
        DoiMetadataType::ReviewBook => {
            assert("legislation"@[0] != "review-book"@[0]);
            assert("performance"@[0] != "review-book"@[0]);
            assert("post-weblog"@[0] != "review-book"@[0]);
        },
        DoiMetadataType::Software => {
            assert("document"@[0] != "software"@[0]);
            assert("pamphlet"@[0] != "software"@[0]);
        },
        DoiMetadataType::Song => {
            assert("bill"@[0] != "song"@[0]);
            assert("book"@[0] != "song"@[0]);
            assert("post"@[0] != "song"@[0]);
        },
        DoiMetadataType::Speech => {
            assert("figure"@[0] != "speech"@[0]);
            assert("patent"@[0] != "speech"@[0]);
            assert("report"@[0] != "speech"@[0]);
            assert("review"@[0] != "speech"@[0]);
        },
        DoiMetadataType::Standard => {
            assert("document"@[0] != "standard"@[0]);
            assert("pamphlet"@[0] != "standard"@[0]);
            assert("software"@[1] != "standard"@[1]);
        },
        DoiMetadataType::Thesis => {
            assert("figure"@[0] != "thesis"@[0]);
            assert("patent"@[0] != "thesis"@[0]);
            assert("report"@[0] != "thesis"@[0]);
            assert("review"@[0] != "thesis"@[0]);
            assert("speech"@[0] != "thesis"@[0]);
        },
        DoiMetadataType::Treaty => {
            assert("figure"@[0] != "treaty"@[0]);
            assert("patent"@[0] != "treaty"@[0]);
            assert("report"@[0] != "treaty"@[0]);
            assert("review"@[0] != "treaty"@[0]);
            assert("speech"@[0] != "treaty"@[0]);
            assert("thesis"@[1] != "treaty"@[1]);
        },
        DoiMetadataType::Webpage => {
            assert("article"@[0] != "webpage"@[0]);
            assert("chapter"@[0] != "webpage"@[0]);
            assert("classic"@[0] != "webpage"@[0]);
            assert("dataset"@[0] != "webpage"@[0]);
            assert("graphic"@[0] != "webpage"@[0]);
            assert("hearing"@[0] != "webpage"@[0]);
        },
        DoiMetadataType::MISC(_) => {},
    }
}

/// The tag kept in `MISC` is handed back unchanged, and reading it again gives
/// the same `MISC` whenever it is no tag of a named type.
pub proof fn lemma_misc_round_trip(t: DoiMetadataType)
    requires
        t is MISC,
        named_type(type_tag(t)) is None,
    ensures
        type_tag(t) == t->MISC_0@,
        parsed_from(t, type_tag(t)),
{
}

} // verus!

