use vstd::prelude::*;

verus! {

/// A comparison operator of a row query.
///
/// Every operator has one fixed token, which is written into the key of the
/// query parameter that carries the filter. Whether an operator suits the type
/// of the field it is applied to is left to the server.
#[derive(Debug, Clone, Copy, PartialEq, Eq, Structural)]
pub enum Filter {
    // Equality
    /// `equal`
    Equal,
    /// `not_equal`
    NotEqual,
    // Dates
    /// `date_is`
    DateIs,
    /// `date_is_not`
    DateIsNot,
    /// `date_is_before`
    DateIsBefore,
    /// `date_is_on_or_before`
    DateIsOnOrBefore,
    /// `date_is_after`
    DateIsAfter,
    /// `date_is_on_or_after`
    DateIsOnOrAfter,
    /// `date_is_within`
    DateIsWithin,
    /// `date_equal`
    DateEqual,
    /// `date_not_equal`
    DateNotEqual,
    /// `date_equals_today`
    DateEqualsToday,
    /// `date_before_today`
    DateBeforeToday,
    /// `date_after_today`
    DateAfterToday,
    /// `date_within_days`
    DateWithinDays,
    /// `date_within_weeks`
    DateWithinWeeks,
    /// `date_within_months`
    DateWithinMonths,
    /// `date_equals_days_ago`
    DateEqualsDaysAgo,
    /// `date_equals_months_ago`
    DateEqualsMonthsAgo,
    /// `date_equals_years_ago`
    DateEqualsYearsAgo,
    /// `date_equals_week`
    DateEqualsWeek,
    /// `date_equals_month`
    DateEqualsMonth,
    /// `date_equals_year`
    DateEqualsYear,
    /// `date_equals_day_of_month`
    DateEqualsDayOfMonth,
    /// `date_before`
    DateBefore,
    /// `date_before_or_equal`
    DateBeforeOrEqual,
    /// `date_after`
    DateAfter,
    /// `date_after_or_equal`
    DateAfterOrEqual,
    /// `date_after_days_ago`
    DateAfterDaysAgo,
    // Presence and content of values in list-like fields
    /// `has_empty_value`
    HasEmptyValue,
    /// `has_not_empty_value`
    HasNotEmptyValue,
    /// `has_value_equal`
    HasValueEqual,
    /// `has_not_value_equal`
    HasNotValueEqual,
    /// `has_value_contains`
    HasValueContains,
    /// `has_not_value_contains`
    HasNotValueContains,
    /// `has_value_contains_word`
    HasValueContainsWord,
    /// `has_not_value_contains_word`
    HasNotValueContainsWord,
    /// `has_value_length_is_lower_than`
    HasValueLengthIsLowerThan,
    /// `has_all_values_equal`
    HasAllValuesEqual,
    /// `has_any_select_option_equal`
    HasAnySelectOptionEqual,
    /// `has_none_select_option_equal`
    HasNoneSelectOptionEqual,
    // Text
    /// `contains`
    Contains,
    /// `contains_not`
    ContainsNot,
    /// `contains_word`
    ContainsWord,
    /// `doesnt_contain_word`
    DoesntContainWord,
    // Files
    /// `filename_contains`
    FilenameContains,
    /// `has_file_type`
    HasFileType,
    /// `files_lower_than`
    FilesLowerThan,
    /// `length_is_lower_than`
    LengthIsLowerThan,
    // Numbers
    /// `higher_than`
    HigherThan,
    /// `higher_than_or_equal`
    HigherThanOrEqual,
    /// `lower_than`
    LowerThan,
    /// `lower_than_or_equal`
    LowerThanOrEqual,
    /// `is_even_and_whole`
    IsEvenAndWhole,
    // Single select and boolean
    /// `single_select_equal`
    SingleSelectEqual,
    /// `single_select_not_equal`
    SingleSelectNotEqual,
    /// `single_select_is_any_of`
    SingleSelectIsAnyOf,
    /// `single_select_is_none_of`
    SingleSelectIsNoneOf,
    /// `boolean`
    Boolean,
    // Linked rows
    /// `link_row_has`
    LinkRowHas,
    /// `link_row_has_not`
    LinkRowHasNot,
    /// `link_row_contains`
    LinkRowContains,
    /// `link_row_not_contains`
    LinkRowNotContains,
    // Multiple select and collaborators
    /// `multiple_select_has`
    MultipleSelectHas,
    /// `multiple_select_has_not`
    MultipleSelectHasNot,
    /// `multiple_collaborators_has`
    MultipleCollaboratorsHas,
    /// `multiple_collaborators_has_not`
    MultipleCollaboratorsHasNot,
    // Emptiness
    /// `empty`
    Empty,
    /// `not_empty`
    NotEmpty,
    // Users
    /// `user_is`
    UserIs,
    /// `user_is_not`
    UserIsNot,
}

/// A character that may occur in an operator's token.
pub open spec fn is_token_char(c: char) -> bool {
    ('a' <= c && c <= 'z') || c == '_'
}

impl Filter {
    /// The token of this operator, as a sequence of characters.
    pub open spec fn token(self) -> Seq<char> {
        match self {
            Filter::Equal => "equal"@,
            Filter::NotEqual => "not_equal"@,
            Filter::DateIs => "date_is"@,
            Filter::DateIsNot => "date_is_not"@,
            Filter::DateIsBefore => "date_is_before"@,
            Filter::DateIsOnOrBefore => "date_is_on_or_before"@,
            Filter::DateIsAfter => "date_is_after"@,
            Filter::DateIsOnOrAfter => "date_is_on_or_after"@,
            Filter::DateIsWithin => "date_is_within"@,
            Filter::DateEqual => "date_equal"@,
            Filter::DateNotEqual => "date_not_equal"@,
            Filter::DateEqualsToday => "date_equals_today"@,
            Filter::DateBeforeToday => "date_before_today"@,
            Filter::DateAfterToday => "date_after_today"@,
            Filter::DateWithinDays => "date_within_days"@,
            Filter::DateWithinWeeks => "date_within_weeks"@,
            Filter::DateWithinMonths => "date_within_months"@,
            Filter::DateEqualsDaysAgo => "date_equals_days_ago"@,
            Filter::DateEqualsMonthsAgo => "date_equals_months_ago"@,
            Filter::DateEqualsYearsAgo => "date_equals_years_ago"@,
            Filter::DateEqualsWeek => "date_equals_week"@,
            Filter::DateEqualsMonth => "date_equals_month"@,
            Filter::DateEqualsYear => "date_equals_year"@,
            Filter::DateEqualsDayOfMonth => "date_equals_day_of_month"@,
            Filter::DateBefore => "date_before"@,
            Filter::DateBeforeOrEqual => "date_before_or_equal"@,
            Filter::DateAfter => "date_after"@,
            Filter::DateAfterOrEqual => "date_after_or_equal"@,
            Filter::DateAfterDaysAgo => "date_after_days_ago"@,
            Filter::HasEmptyValue => "has_empty_value"@,
            Filter::HasNotEmptyValue => "has_not_empty_value"@,
            Filter::HasValueEqual => "has_value_equal"@,
            Filter::HasNotValueEqual => "has_not_value_equal"@,
            Filter::HasValueContains => "has_value_contains"@,
            Filter::HasNotValueContains => "has_not_value_contains"@,
            Filter::HasValueContainsWord => "has_value_contains_word"@,
            Filter::HasNotValueContainsWord => "has_not_value_contains_word"@,
            Filter::HasValueLengthIsLowerThan => "has_value_length_is_lower_than"@,
            Filter::HasAllValuesEqual => "has_all_values_equal"@,
            Filter::HasAnySelectOptionEqual => "has_any_select_option_equal"@,
            Filter::HasNoneSelectOptionEqual => "has_none_select_option_equal"@,
            Filter::Contains => "contains"@,
            Filter::ContainsNot => "contains_not"@,
            Filter::ContainsWord => "contains_word"@,
            Filter::DoesntContainWord => "doesnt_contain_word"@,
            Filter::FilenameContains => "filename_contains"@,
            Filter::HasFileType => "has_file_type"@,
            Filter::FilesLowerThan => "files_lower_than"@,
            Filter::LengthIsLowerThan => "length_is_lower_than"@,
            Filter::HigherThan => "higher_than"@,
            Filter::HigherThanOrEqual => "higher_than_or_equal"@,
            Filter::LowerThan => "lower_than"@,
            Filter::LowerThanOrEqual => "lower_than_or_equal"@,
            Filter::IsEvenAndWhole => "is_even_and_whole"@,
            Filter::SingleSelectEqual => "single_select_equal"@,
            Filter::SingleSelectNotEqual => "single_select_not_equal"@,
            Filter::SingleSelectIsAnyOf => "single_select_is_any_of"@,
            Filter::SingleSelectIsNoneOf => "single_select_is_none_of"@,
            Filter::Boolean => "boolean"@,
            Filter::LinkRowHas => "link_row_has"@,
            Filter::LinkRowHasNot => "link_row_has_not"@,
            Filter::LinkRowContains => "link_row_contains"@,
            Filter::LinkRowNotContains => "link_row_not_contains"@,
            Filter::MultipleSelectHas => "multiple_select_has"@,
            Filter::MultipleSelectHasNot => "multiple_select_has_not"@,
            Filter::MultipleCollaboratorsHas => "multiple_collaborators_has"@,
            Filter::MultipleCollaboratorsHasNot => "multiple_collaborators_has_not"@,
            Filter::Empty => "empty"@,
            Filter::NotEmpty => "not_empty"@,
            Filter::UserIs => "user_is"@,
            Filter::UserIsNot => "user_is_not"@,
        }
    }

    /// The token of this operator, as it is written into a query.
    pub fn as_str(&self) -> (token: &'static str)
        ensures
            token@ == self.token(),
    {
        match self {
            Filter::Equal => "equal",
            Filter::NotEqual => "not_equal",
            Filter::DateIs => "date_is",
            Filter::DateIsNot => "date_is_not",
            Filter::DateIsBefore => "date_is_before",
            Filter::DateIsOnOrBefore => "date_is_on_or_before",
            Filter::DateIsAfter => "date_is_after",
            Filter::DateIsOnOrAfter => "date_is_on_or_after",
            Filter::DateIsWithin => "date_is_within",
            Filter::DateEqual => "date_equal",
            Filter::DateNotEqual => "date_not_equal",
            Filter::DateEqualsToday => "date_equals_today",
            Filter::DateBeforeToday => "date_before_today",
            Filter::DateAfterToday => "date_after_today",
            Filter::DateWithinDays => "date_within_days",
            Filter::DateWithinWeeks => "date_within_weeks",
            Filter::DateWithinMonths => "date_within_months",
            Filter::DateEqualsDaysAgo => "date_equals_days_ago",
            Filter::DateEqualsMonthsAgo => "date_equals_months_ago",
            Filter::DateEqualsYearsAgo => "date_equals_years_ago",
            Filter::DateEqualsWeek => "date_equals_week",
            Filter::DateEqualsMonth => "date_equals_month",
            Filter::DateEqualsYear => "date_equals_year",
            Filter::DateEqualsDayOfMonth => "date_equals_day_of_month",
            Filter::DateBefore => "date_before",
            Filter::DateBeforeOrEqual => "date_before_or_equal",
            Filter::DateAfter => "date_after",
            Filter::DateAfterOrEqual => "date_after_or_equal",
            Filter::DateAfterDaysAgo => "date_after_days_ago",
            Filter::HasEmptyValue => "has_empty_value",
            Filter::HasNotEmptyValue => "has_not_empty_value",
            Filter::HasValueEqual => "has_value_equal",
            Filter::HasNotValueEqual => "has_not_value_equal",
            Filter::HasValueContains => "has_value_contains",
            Filter::HasNotValueContains => "has_not_value_contains",
            Filter::HasValueContainsWord => "has_value_contains_word",
            Filter::HasNotValueContainsWord => "has_not_value_contains_word",
            Filter::HasValueLengthIsLowerThan => "has_value_length_is_lower_than",
            Filter::HasAllValuesEqual => "has_all_values_equal",
            Filter::HasAnySelectOptionEqual => "has_any_select_option_equal",
            Filter::HasNoneSelectOptionEqual => "has_none_select_option_equal",
            Filter::Contains => "contains",
            Filter::ContainsNot => "contains_not",
            Filter::ContainsWord => "contains_word",
            Filter::DoesntContainWord => "doesnt_contain_word",
            Filter::FilenameContains => "filename_contains",
            Filter::HasFileType => "has_file_type",
            Filter::FilesLowerThan => "files_lower_than",
            Filter::LengthIsLowerThan => "length_is_lower_than",
            Filter::HigherThan => "higher_than",
            Filter::HigherThanOrEqual => "higher_than_or_equal",
            Filter::LowerThan => "lower_than",
            Filter::LowerThanOrEqual => "lower_than_or_equal",
            Filter::IsEvenAndWhole => "is_even_and_whole",
            Filter::SingleSelectEqual => "single_select_equal",
            Filter::SingleSelectNotEqual => "single_select_not_equal",
            Filter::SingleSelectIsAnyOf => "single_select_is_any_of",
            Filter::SingleSelectIsNoneOf => "single_select_is_none_of",
            Filter::Boolean => "boolean",
            Filter::LinkRowHas => "link_row_has",
            Filter::LinkRowHasNot => "link_row_has_not",
            Filter::LinkRowContains => "link_row_contains",
            Filter::LinkRowNotContains => "link_row_not_contains",
            Filter::MultipleSelectHas => "multiple_select_has",
            Filter::MultipleSelectHasNot => "multiple_select_has_not",
            Filter::MultipleCollaboratorsHas => "multiple_collaborators_has",
            Filter::MultipleCollaboratorsHasNot => "multiple_collaborators_has_not",
            Filter::Empty => "empty",
            Filter::NotEmpty => "not_empty",
            Filter::UserIs => "user_is",
            Filter::UserIsNot => "user_is_not",
        }
    }
}

/// One filter of a row query: a field, an operator and the value to compare with.
///
/// The value is always sent as text; what it means for the field's type is
/// decided by the server.
#[derive(Debug, Clone)]
pub struct FilterTriple {
    /// The field to filter on, by name or by key.
    pub field: String,
    /// The operator to apply.
    pub filter: Filter,
    /// The value to compare against.
    pub value: String,
}

proof fn lemma_tokens_revealed()
    ensures
        forall|f: Filter| #[trigger] f.token().len() > 0,
        forall|f: Filter, i: int|
            0 <= i < f.token().len() ==> is_token_char(#[trigger] f.token()[i]),
        forall|a: Filter, b: Filter| #[trigger] a.token() == #[trigger] b.token() ==> a == b,
{
    reveal_strlit("equal");
    reveal_strlit("not_equal");
    reveal_strlit("date_is");
    reveal_strlit("date_is_not");
    reveal_strlit("date_is_before");
    reveal_strlit("date_is_on_or_before");
    reveal_strlit("date_is_after");
    reveal_strlit("date_is_on_or_after");
    reveal_strlit("date_is_within");
    reveal_strlit("date_equal");
    reveal_strlit("date_not_equal");
    reveal_strlit("date_equals_today");
    reveal_strlit("date_before_today");
    reveal_strlit("date_after_today");
    reveal_strlit("date_within_days");
    reveal_strlit("date_within_weeks");
    reveal_strlit("date_within_months");
    reveal_strlit("date_equals_days_ago");
    reveal_strlit("date_equals_months_ago");
    reveal_strlit("date_equals_years_ago");
    reveal_strlit("date_equals_week");
    reveal_strlit("date_equals_month");
    reveal_strlit("date_equals_year");
    reveal_strlit("date_equals_day_of_month");
    reveal_strlit("date_before");
    reveal_strlit("date_before_or_equal");
    reveal_strlit("date_after");
    reveal_strlit("date_after_or_equal");
    reveal_strlit("date_after_days_ago");
    reveal_strlit("has_empty_value");
    reveal_strlit("has_not_empty_value");
    reveal_strlit("has_value_equal");
    reveal_strlit("has_not_value_equal");
    reveal_strlit("has_value_contains");
    reveal_strlit("has_not_value_contains");
    reveal_strlit("has_value_contains_word");
    reveal_strlit("has_not_value_contains_word");
    reveal_strlit("has_value_length_is_lower_than");
    reveal_strlit("has_all_values_equal");
    reveal_strlit("has_any_select_option_equal");
    reveal_strlit("has_none_select_option_equal");
    reveal_strlit("contains");
    reveal_strlit("contains_not");
    reveal_strlit("contains_word");
    reveal_strlit("doesnt_contain_word");
    reveal_strlit("filename_contains");
    reveal_strlit("has_file_type");
    reveal_strlit("files_lower_than");
    reveal_strlit("length_is_lower_than");
    reveal_strlit("higher_than");
    reveal_strlit("higher_than_or_equal");
    reveal_strlit("lower_than");
    reveal_strlit("lower_than_or_equal");
    reveal_strlit("is_even_and_whole");
    reveal_strlit("single_select_equal");
    reveal_strlit("single_select_not_equal");
    reveal_strlit("single_select_is_any_of");
    reveal_strlit("single_select_is_none_of");
    reveal_strlit("boolean");
    reveal_strlit("link_row_has");
    reveal_strlit("link_row_has_not");
    reveal_strlit("link_row_contains");
    reveal_strlit("link_row_not_contains");
    reveal_strlit("multiple_select_has");
    reveal_strlit("multiple_select_has_not");
    reveal_strlit("multiple_collaborators_has");
    reveal_strlit("multiple_collaborators_has_not");
    reveal_strlit("empty");
    reveal_strlit("not_empty");
    reveal_strlit("user_is");
    reveal_strlit("user_is_not");
    assert forall|a: Filter, b: Filter| #[trigger] a.token() == #[trigger] b.token() implies a
        == b by {
        let s = a.token();
        let t = b.token();
        assert(s.len() == t.len());
        assert(0 < s.len() ==> s[0] == t[0]);
        assert(1 < s.len() ==> s[1] == t[1]);
        assert(2 < s.len() ==> s[2] == t[2]);
        assert(3 < s.len() ==> s[3] == t[3]);
        assert(4 < s.len() ==> s[4] == t[4]);
        assert(5 < s.len() ==> s[5] == t[5]);
        assert(6 < s.len() ==> s[6] == t[6]);
        assert(7 < s.len() ==> s[7] == t[7]);
        assert(8 < s.len() ==> s[8] == t[8]);
        assert(9 < s.len() ==> s[9] == t[9]);
        assert(10 < s.len() ==> s[10] == t[10]);
        assert(11 < s.len() ==> s[11] == t[11]);
        assert(12 < s.len() ==> s[12] == t[12]);
        assert(13 < s.len() ==> s[13] == t[13]);
        assert(14 < s.len() ==> s[14] == t[14]);
        assert(15 < s.len() ==> s[15] == t[15]);
        assert(16 < s.len() ==> s[16] == t[16]);
        assert(17 < s.len() ==> s[17] == t[17]);
        assert(18 < s.len() ==> s[18] == t[18]);
        assert(19 < s.len() ==> s[19] == t[19]);
        assert(20 < s.len() ==> s[20] == t[20]);
        assert(21 < s.len() ==> s[21] == t[21]);
        assert(22 < s.len() ==> s[22] == t[22]);
        assert(23 < s.len() ==> s[23] == t[23]);
        assert(24 < s.len() ==> s[24] == t[24]);
        assert(25 < s.len() ==> s[25] == t[25]);
        assert(26 < s.len() ==> s[26] == t[26]);
        assert(27 < s.len() ==> s[27] == t[27]);
        assert(28 < s.len() ==> s[28] == t[28]);
        assert(29 < s.len() ==> s[29] == t[29]);
        assert(30 < s.len() ==> s[30] == t[30]);
    }
}

/// Every token is non-empty and made of lower-case letters and underscores,
/// so that it can stand in the key of a query parameter as it is.
pub proof fn law_token_is_snake_case(f: Filter)
    ensures
        f.token().len() > 0,
        forall|i: int| 0 <= i < f.token().len() ==> is_token_char(#[trigger] f.token()[i]),
{
    lemma_tokens_revealed();
}

/// No two operators share a token: a query parameter names its operator
/// unambiguously.
pub proof fn law_token_identifies_operator(a: Filter, b: Filter)
    requires
        a.token() == b.token(),
    ensures
        a == b,
{
    lemma_tokens_revealed();
}

} // verus!
