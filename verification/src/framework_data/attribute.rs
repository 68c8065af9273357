//! Per-tag attribute catalogue for the element frameworks.
//!
//! The catalogue is large, so it is stated and built in parts; the public
//! table is the concatenation of the parts in order.

use vstd::prelude::*;

use crate::framework_data::AttrInfo;

verus! {

/// An attribute record without enumerated values.
pub open spec fn plain(t: Seq<char>, d: Seq<char>) -> (Seq<char>, Seq<char>, Seq<Seq<char>>) {
    (t, d, Seq::<Seq<char>>::empty())
}

/// Part 1 of the catalogue.
pub open spec fn spec_element_attributes_part_1() -> Seq<
    (Seq<char>, Seq<(Seq<char>, (Seq<char>, Seq<char>, Seq<Seq<char>>))>),
> {
    seq![
        ("el-row"@, seq![
            ("gutter"@, plain("attribute"@, "grid spacing"@)),
            ("type"@, ("attribute"@, "layout mode, you can use 'flex', works in modern browsers"@, seq!["flex"@])),
            ("justify"@, ("attribute"@, "horizontal alignment of flex layout"@, seq!["start"@, "end"@, "center"@, "space-around"@, "space-between"@])),
            ("align"@, ("attribute"@, "vertical alignment of flex layout"@, seq!["top"@, "middle"@, "bottom"@])),
            ("tag"@, plain("attribute"@, "custom element tag"@)),
        ]),
        ("el-col"@, seq![
            ("span"@, plain("attribute"@, "number of column the grid spans"@)),
            ("offset"@, plain("attribute"@, ""@)),
            ("push"@, plain("attribute"@, "number of columns that grid moves to the right"@)),
            ("pull"@, plain("attribute"@, "number of columns that grid moves to the left"@)),
            ("xs"@, plain("attribute"@, "<768px Responsive columns or column props object"@)),
            ("sm"@, plain("attribute"@, "≥768px Responsive columns or column props object"@)),
            ("md"@, plain("attribute"@, "≥992 Responsive columns or column props object"@)),
            ("lg"@, plain("attribute"@, "≥1200 Responsive columns or column props object"@)),
            ("xl"@, plain("attribute"@, "≥1200px Responsive columns or column props object, version >= 2"@)),
            ("tag"@, plain("attribute"@, "custom element tag"@)),
        ]),
        ("el-button"@, seq![
            ("type"@, ("attribute"@, "button type"@, seq!["primary"@, "success"@, "warning"@, "danger"@, "info"@, "text"@])),
            ("size"@, ("attribute"@, ""@, seq!["medium"@, "small"@, "mini"@])),
            ("plain"@, plain("attribute"@, "determine whether it's a plain button"@)),
            ("loading"@, plain("attribute"@, ""@)),
            ("disabled"@, plain("attribute"@, ""@)),
            ("icon"@, plain("attribute"@, ""@)),
            ("autofocus"@, plain("attribute"@, ""@)),
            ("native-type"@, ("attribute"@, "same as native button's type"@, seq!["button"@, "submit"@, "reset"@])),
            ("round"@, plain("attribute"@, "determine whether it's a round button, default: false"@)),
            ("circle"@, plain("attribute"@, ""@)),
        ]),
        ("el-radio"@, seq![
            ("label"@, plain("attribute"@, ""@)),
            ("disabled"@, plain("attribute"@, ""@)),
            ("border"@, plain("attribute"@, ""@)),
            ("size"@, ("attribute"@, ""@, seq!["medium"@, "small"@, "mini"@])),
            ("name"@, plain("attribute"@, "native 'name' attribute"@)),
        ]),
        ("el-radio-group"@, seq![
            ("v-model"@, plain("attribute"@, ""@)),
            ("size"@, ("attribute"@, ""@, seq!["medium"@, "small"@, "mini"@])),
            ("fill"@, plain("attribute"@, "border and background color when button is active"@)),
            ("text-color"@, plain("attribute"@, ""@)),
            ("change"@, plain("method"@, ""@)),
        ]),
        ("el-radio-button"@, seq![
            ("label"@, plain("attribute"@, ""@)),
            ("disabled"@, plain("attribute"@, ""@)),
        ]),
        ("el-checkbox"@, seq![
            ("label"@, plain("attribute"@, ""@)),
            ("true-label"@, plain("attribute"@, "value of the checkbox if it's checked"@)),
            ("false-label"@, plain("attribute"@, "value of the checkbox if it's not checked"@)),
            ("border"@, plain("attribute"@, ""@)),
            ("size"@, ("attribute"@, ""@, seq!["medium"@, "small"@, "mini"@])),
            ("name"@, plain("attribute"@, "native 'name' attribute"@)),
            ("checked"@, plain("attribute"@, ""@)),
            ("indeterminate"@, plain("attribute"@, "same as indeterminate in native checkbox"@)),
            ("disabled"@, plain("attribute"@, ""@)),
        ]),
        ("el-checkbox-group"@, seq![
            ("v-model"@, plain("attribute"@, ""@)),
            ("size"@, ("attribute"@, ""@, seq!["medium"@, "small"@, "mini"@])),
            ("fill"@, plain("attribute"@, "border and background color when button is active"@)),
            ("text-color"@, plain("attribute"@, ""@)),
            ("min"@, plain("attribute"@, "minimum number of checkbox checked"@)),
            ("max"@, plain("attribute"@, "maximum number of checkbox checked"@)),
            ("change"@, plain("method"@, ""@)),
        ]),
        ("el-checkbox-button"@, seq![
            ("label"@, plain("attribute"@, ""@)),
        ]),
        ("el-input"@, seq![
            ("v-model"@, plain("attribute"@, ""@)),
            ("placeholder"@, plain("attribute"@, ""@)),
            ("type"@, plain("attribute"@, "Same as the 'type' attribute of native input, except that it can be 'textarea'"@)),
            ("value"@, plain("attribute"@, ""@)),
            ("maxlength"@, plain("attribute"@, "maximum Input text length"@)),
            ("minlength"@, plain("attribute"@, "minimum Input text length"@)),
            ("disabled"@, plain("attribute"@, ""@)),
            ("size"@, ("attribute"@, ""@, seq!["medium"@, "small"@, "mini"@])),
            ("icon"@, plain("attribute"@, "icon name"@)),
            ("prefix-icon"@, plain("attribute"@, "prefix icon class"@)),
            ("suffix-icon"@, plain("attribute"@, "suffix icon class"@)),
            ("rows"@, plain("attribute"@, "number of rows of textarea, only works when type is 'textarea'"@)),
            ("autosize"@, plain("attribute"@, "whether textarea has an adaptive height"@)),
            ("auto-complete"@, ("attribute"@, ""@, seq!["one"@, "off"@])),
            ("name"@, plain("attribute"@, "native 'name' attribute"@)),
            ("readonly"@, plain("attribute"@, ""@)),
            ("max"@, plain("attribute"@, ""@)),
            ("min"@, plain("attribute"@, ""@)),
            ("step"@, plain("attribute"@, "same as step in native input"@)),
            ("resize"@, ("attribute"@, "control the resizability"@, seq!["none"@, "both"@, "horizontal"@, "vertical"@])),
            ("autofocus"@, plain("attribute"@, ""@)),
            ("form"@, plain("attribute"@, "same as 'form' in native input"@)),
            ("label"@, plain("attribute"@, ""@)),
            ("tabindex"@, plain("attribute"@, "input tabindex"@)),
            ("clearable"@, plain("attribute"@, ""@)),
            ("on-icon-click"@, plain("attribute"@, "hook function when clicking on the input icon"@)),
            ("click"@, plain("method"@, ""@)),
            ("blur"@, plain("method"@, ""@)),
            ("focus"@, plain("method"@, ""@)),
            ("change"@, plain("method"@, ""@)),
            ("clear"@, plain("method"@, "triggers when the Input is cleared by the button which generated by the 'clearable' attribute"@)),
        ]),
    ]
}

/// Part 2 of the catalogue.
pub open spec fn spec_element_attributes_part_2() -> Seq<
    (Seq<char>, Seq<(Seq<char>, (Seq<char>, Seq<char>, Seq<Seq<char>>))>),
> {
    seq![
        ("el-autocomplete"@, seq![
            ("v-model"@, plain("attribute"@, ""@)),
            ("placeholder"@, plain("attribute"@, ""@)),
            ("value"@, plain("attribute"@, ""@)),
            ("debounce"@, plain("attribute"@, "debounce delay when typing, in milliseconds, default: 300"@)),
            ("disabled"@, plain("attribute"@, ""@)),
            ("props"@, plain("attribute"@, ""@)),
            ("custom-item"@, plain("attribute"@, "component name of your customized suggestion list item"@)),
            ("icon"@, plain("attribute"@, ""@)),
            ("fetch-suggestions"@, plain("attribute"@, "a method to fetch input suggestions"@)),
            ("popper-class"@, plain("attribute"@, ""@)),
            ("trigger-on-focus"@, plain("attribute"@, "whether show suggestions when input focus"@)),
            ("on-icon-click"@, plain("attribute"@, "hook function when clicking on the input icon"@)),
            ("select-when-unmatched"@, plain("attribute"@, "whether to emit a 'select' event on enter when there is no autocomplete match"@)),
            ("label"@, plain("attribute"@, ""@)),
            ("prefix-icon"@, plain("attribute"@, "prefix icon class"@)),
            ("suffix-icon"@, plain("attribute"@, "suffix icon class"@)),
            ("select"@, plain("method"@, ""@)),
        ]),
        ("el-input-number"@, seq![
            ("v-model"@, plain("attribute"@, ""@)),
            ("placeholder"@, plain("attribute"@, ""@)),
            ("value"@, plain("attribute"@, ""@)),
            ("min"@, plain("attribute"@, "the minimum allowed value"@)),
            ("max"@, plain("attribute"@, "the maximum allowed value"@)),
            ("step"@, plain("attribute"@, "incremental step"@)),
            ("size"@, ("attribute"@, ""@, seq!["medium"@, "small"@, "mini"@])),
            ("disabled"@, plain("attribute"@, ""@)),
            ("controls-position"@, ("attribute"@, "position of the control buttons"@, seq!["right"@])),
            ("controls"@, plain("attribute"@, ""@)),
            ("debounce"@, plain("attribute"@, "debounce delay when typing, in millisecond"@)),
            ("change"@, plain("method"@, ""@)),
        ]),
        ("el-select"@, seq![
            ("v-model"@, plain("attribute"@, ""@)),
            ("placeholder"@, plain("attribute"@, ""@)),
            ("multiple"@, plain("attribute"@, ""@)),
            ("disabled"@, plain("attribute"@, ""@)),
            ("value-key"@, plain("attribute"@, "unique identity key name for value"@)),
            ("size"@, ("attribute"@, ""@, seq!["medium"@, "small"@, "mini"@])),
            ("clearable"@, plain("attribute"@, ""@)),
            ("collapse-tags"@, plain("attribute"@, "whether to collapse tags to a text when multiple selecting"@)),
            ("multiple-limit"@, plain("attribute"@, "maximum number of options user can select when multiple is true"@)),
            ("name"@, plain("attribute"@, "native 'name' attribute"@)),
            ("auto-complete"@, ("attribute"@, ""@, seq!["one"@, "off"@])),
            ("filterable"@, plain("attribute"@, ""@)),
            ("allow-create"@, plain("attribute"@, ""@)),
            ("filter-method"@, plain("attribute"@, ""@)),
            ("remote"@, plain("attribute"@, ""@)),
            ("remote-method"@, plain("attribute"@, ""@)),
            ("loading"@, plain("attribute"@, ""@)),
            ("loading-text"@, plain("attribute"@, "displayed text while loading data from server"@)),
            ("no-match-text"@, plain("attribute"@, "displayed text when no data matches the filtering query"@)),
            ("no-data-text"@, plain("attribute"@, "displayed text when there is no options"@)),
            ("popper-class"@, plain("attribute"@, ""@)),
            ("reserve-keyword"@, plain("attribute"@, "when 'multiple' and 'filter' is true, whether to reserve current keyword after selecting an option"@)),
            ("default-first-option"@, plain("attribute"@, "select first matching option on enter key"@)),
            ("popper-append-to-body"@, plain("attribute"@, "whether to append the popper menu to body"@)),
            ("change"@, plain("method"@, ""@)),
            ("visible-change"@, plain("method"@, ""@)),
            ("remote-tag"@, plain("attribute"@, ""@)),
            ("clear"@, plain("method"@, "triggers when the clear icon is clicked in a clearable Select"@)),
            ("blur"@, plain("method"@, ""@)),
            ("focus"@, plain("method"@, ""@)),
        ]),
        ("el-option-group"@, seq![
            ("v-for"@, plain("attribute"@, ""@)),
            ("key"@, plain("attribute"@, ""@)),
            ("label"@, plain("attribute"@, ""@)),
            ("disabled"@, plain("attribute"@, ""@)),
        ]),
        ("el-option"@, seq![
            ("label"@, plain("attribute"@, ""@)),
            ("value"@, plain("attribute"@, ""@)),
            ("disabled"@, plain("attribute"@, ""@)),
        ]),
        ("el-cascader"@, seq![
            ("options"@, plain("attribute"@, ""@)),
            ("v-model"@, plain("attribute"@, ""@)),
            ("props"@, plain("attribute"@, ""@)),
            ("separator"@, plain("attribute"@, ""@)),
            ("popper-class"@, plain("attribute"@, ""@)),
            ("placeholder"@, plain("attribute"@, ""@)),
            ("disabled"@, plain("attribute"@, ""@)),
            ("clearable"@, plain("attribute"@, ""@)),
            ("expand-trigger"@, ("attribute"@, ""@, seq!["click"@, "hover"@])),
            ("show-all-levels"@, plain("attribute"@, ""@)),
            ("filterable"@, plain("attribute"@, ""@)),
            ("debounce"@, plain("attribute"@, ""@)),
            ("change-on-select"@, plain("attribute"@, ""@)),
            ("size"@, ("attribute"@, ""@, seq!["medium"@, "small"@, "mini"@])),
            ("change"@, plain("method"@, ""@)),
            ("active-item-change"@, plain("method"@, ""@)),
            ("blur"@, plain("method"@, ""@)),
            ("focus"@, plain("method"@, ""@)),
        ]),
        ("el-switch"@, seq![
            ("v-model"@, plain("attribute"@, ""@)),
            ("disabled"@, plain("attribute"@, ""@)),
            ("width"@, plain("attribute"@, ""@)),
            ("active-icon-class"@, plain("attribute"@, ""@)),
            ("inactive-icon-class"@, plain("attribute"@, ""@)),
            ("active-text"@, plain("attribute"@, ""@)),
            ("inactive-text"@, plain("attribute"@, ""@)),
            ("active-value"@, plain("attribute"@, ""@)),
            ("inactive-value"@, plain("attribute"@, ""@)),
            ("active-color"@, plain("attribute"@, ""@)),
            ("inactive-color"@, plain("attribute"@, ""@)),
            ("name"@, plain("attribute"@, ""@)),
            ("change"@, plain("method"@, ""@)),
        ]),
        ("el-slider"@, seq![
            ("v-model"@, plain("attribute"@, ""@)),
            ("min"@, plain("attribute"@, ""@)),
            ("max"@, plain("attribute"@, ""@)),
            ("disabled"@, plain("attribute"@, ""@)),
            ("step"@, plain("attribute"@, ""@)),
            ("show-input"@, plain("attribute"@, ""@)),
            ("show-stops"@, plain("attribute"@, ""@)),
            ("range"@, plain("attribute"@, ""@)),
            ("vertical"@, plain("attribute"@, ""@)),
            ("height"@, plain("attribute"@, ""@)),
            ("change"@, plain("method"@, ""@)),
        ]),
        ("el-time-picker"@, seq![
            ("v-model"@, plain("attribute"@, ""@)),
            ("readonly"@, plain("attribute"@, ""@)),
            ("disabled"@, plain("attribute"@, ""@)),
            ("editable"@, plain("attribute"@, ""@)),
            ("clearable"@, plain("attribute"@, ""@)),
            ("size"@, ("attribute"@, ""@, seq!["medium"@, "small"@, "mini"@])),
            ("placeholder"@, plain("attribute"@, ""@)),
            ("is-range"@, plain("attribute"@, ""@)),
            ("arrow-control"@, plain("attribute"@, ""@)),
            ("picker-options"@, plain("attribute"@, ""@)),
            ("change"@, plain("method"@, ""@)),
        ]),
        ("el-date-picker"@, seq![
            ("v-model"@, plain("attribute"@, ""@)),
            ("readonly"@, plain("attribute"@, ""@)),
            ("disabled"@, plain("attribute"@, ""@)),
            ("editable"@, plain("attribute"@, ""@)),
            ("clearable"@, plain("attribute"@, ""@)),
            ("size"@, ("attribute"@, ""@, seq!["large"@, "small"@, "mini"@])),
            ("placeholder"@, plain("attribute"@, ""@)),
            ("type"@, ("attribute"@, ""@, seq!["year"@, "month"@, "date"@, "dates"@, "week"@, "datetime"@, "datetimerange"@, "daterange"@])),
            ("format"@, plain("attribute"@, ""@)),
            ("align"@, ("attribute"@, ""@, seq!["left"@, "center"@, "right"@])),
            ("popper-class"@, plain("attribute"@, ""@)),
            ("picker-options"@, plain("attribute"@, ""@)),
            ("range-separator"@, plain("attribute"@, ""@)),
            ("default-value"@, plain("attribute"@, ""@)),
            ("value-format"@, plain("attribute"@, ""@)),
            ("change"@, plain("method"@, ""@)),
            ("blur"@, plain("method"@, ""@)),
            ("focus"@, plain("method"@, ""@)),
        ]),
    ]
}

/// Part 3 of the catalogue.
pub open spec fn spec_element_attributes_part_3() -> Seq<
    (Seq<char>, Seq<(Seq<char>, (Seq<char>, Seq<char>, Seq<Seq<char>>))>),
> {
    seq![
        ("el-upload"@, seq![
            ("action"@, plain("attribute"@, ""@)),
            ("headers"@, plain("attribute"@, ""@)),
            ("multiple"@, plain("attribute"@, ""@)),
            ("data"@, plain("attribute"@, ""@)),
            ("name"@, plain("attribute"@, ""@)),
            ("with-credentials"@, plain("attribute"@, ""@)),
            ("show-file-list"@, plain("attribute"@, ""@)),
            ("drag"@, plain("attribute"@, ""@)),
            ("accept"@, plain("attribute"@, ""@)),
            ("on-preview"@, plain("attribute"@, ""@)),
            ("on-remove"@, plain("attribute"@, ""@)),
            ("on-success"@, plain("attribute"@, ""@)),
            ("on-error"@, plain("attribute"@, ""@)),
            ("on-progress"@, plain("attribute"@, ""@)),
            ("on-change"@, plain("attribute"@, ""@)),
            ("before-upload"@, plain("attribute"@, ""@)),
            ("before-remove"@, plain("attribute"@, ""@)),
            ("list-type"@, ("attribute"@, ""@, seq!["text"@, "picture"@, "picture-card"@])),
            ("auto-upload"@, plain("attribute"@, ""@)),
            ("file-list"@, plain("attribute"@, ""@)),
            ("disabled"@, plain("attribute"@, ""@)),
            ("limit"@, plain("attribute"@, ""@)),
            ("on-exceed"@, plain("attribute"@, ""@)),
        ]),
        ("el-rate"@, seq![
            ("v-model"@, plain("attribute"@, ""@)),
            ("max"@, plain("attribute"@, ""@)),
            ("disabled"@, plain("attribute"@, ""@)),
            ("allow-half"@, plain("attribute"@, ""@)),
            ("low-threshold"@, plain("attribute"@, ""@)),
            ("high-threshold"@, plain("attribute"@, ""@)),
            ("colors"@, plain("attribute"@, ""@)),
            ("show-text"@, plain("attribute"@, ""@)),
            ("show-score"@, plain("attribute"@, ""@)),
            ("texts"@, plain("attribute"@, ""@)),
            ("change"@, plain("method"@, ""@)),
        ]),
        ("el-color-picker"@, seq![
            ("v-model"@, plain("attribute"@, ""@)),
            ("disabled"@, plain("attribute"@, ""@)),
            ("size"@, ("attribute"@, ""@, seq!["medium"@, "small"@, "mini"@])),
            ("show-alpha"@, plain("attribute"@, ""@)),
            ("color-format"@, ("attribute"@, ""@, seq!["hsl"@, "hsv"@, "hex"@, "rgb"@])),
            ("popper-class"@, plain("attribute"@, ""@)),
            ("predefine"@, plain("attribute"@, ""@)),
            ("change"@, plain("method"@, ""@)),
        ]),
        ("el-transfer"@, seq![
            ("v-model"@, plain("attribute"@, ""@)),
            ("data"@, plain("attribute"@, ""@)),
            ("filterable"@, plain("attribute"@, ""@)),
            ("filter-placeholder"@, plain("attribute"@, ""@)),
            ("filter-method"@, plain("attribute"@, ""@)),
            ("target-order"@, ("attribute"@, ""@, seq!["original"@, "push"@, "unshift"@])),
            ("titles"@, plain("attribute"@, ""@)),
            ("button-texts"@, plain("attribute"@, ""@)),
            ("render-content"@, plain("attribute"@, ""@)),
            ("format"@, plain("attribute"@, ""@)),
            ("props"@, plain("attribute"@, ""@)),
            ("left-default-checked"@, plain("attribute"@, ""@)),
            ("right-default-checked"@, plain("attribute"@, ""@)),
            ("change"@, plain("method"@, ""@)),
        ]),
        ("el-form"@, seq![
            ("model"@, plain("attribute"@, ""@)),
            ("rules"@, plain("attribute"@, ""@)),
            ("inline"@, plain("attribute"@, ""@)),
            ("label-position"@, ("attribute"@, ""@, seq!["right"@, "left"@, "top"@])),
            ("label-width"@, plain("attribute"@, ""@)),
            ("label-suffix"@, plain("attribute"@, ""@)),
            ("hide-required-asterisk"@, plain("attribute"@, ""@)),
            ("show-message"@, plain("attribute"@, ""@)),
            ("inline-message"@, plain("attribute"@, ""@)),
            ("status-icon"@, plain("attribute"@, ""@)),
            ("validate-on-rule-change"@, plain("attribute"@, ""@)),
            ("size"@, ("attribute"@, ""@, seq!["medium"@, "small"@, "mini"@])),
            ("disabled"@, plain("attribute"@, ""@)),
        ]),
        ("el-form-item"@, seq![
            ("prop"@, plain("attribute"@, ""@)),
            ("label"@, plain("attribute"@, ""@)),
            ("label-width"@, plain("attribute"@, ""@)),
            ("required"@, plain("attribute"@, ""@)),
            ("rules"@, plain("attribute"@, ""@)),
            ("error"@, plain("attribute"@, ""@)),
            ("show-message"@, plain("attribute"@, ""@)),
            ("inline-message"@, plain("attribute"@, ""@)),
            ("size"@, ("attribute"@, ""@, seq!["medium"@, "small"@, "mini"@])),
        ]),
        ("el-table"@, seq![
            ("data"@, plain("attribute"@, ""@)),
            ("height"@, plain("attribute"@, ""@)),
            ("max-height"@, plain("attribute"@, ""@)),
            ("stripe"@, plain("attribute"@, ""@)),
            ("border"@, plain("attribute"@, ""@)),
            ("size"@, ("attribute"@, ""@, seq!["medium"@, "small"@, "mini"@])),
            ("fit"@, plain("attribute"@, ""@)),
            ("show-header"@, plain("attribute"@, ""@)),
            ("highlight-current-row"@, plain("attribute"@, ""@)),
            ("current-row-key"@, plain("attribute"@, ""@)),
            ("row-class-name"@, plain("attribute"@, ""@)),
            ("row-style"@, plain("attribute"@, ""@)),
            ("row-key"@, plain("attribute"@, ""@)),
            ("empty-text"@, plain("attribute"@, ""@)),
            ("default-expand-all"@, plain("attribute"@, ""@)),
            ("default-sort"@, plain("attribute"@, ""@)),
            ("show-summary"@, plain("attribute"@, ""@)),
            ("sum-text"@, plain("attribute"@, ""@)),
            ("summary-method"@, plain("attribute"@, ""@)),
            ("span-method"@, plain("attribute"@, ""@)),
            ("select"@, plain("method"@, ""@)),
            ("select-all"@, plain("method"@, ""@)),
            ("selection-change"@, plain("method"@, ""@)),
            ("cell-click"@, plain("method"@, ""@)),
            ("row-click"@, plain("method"@, ""@)),
            ("sort-change"@, plain("method"@, ""@)),
            ("filter-change"@, plain("method"@, ""@)),
            ("current-change"@, plain("method"@, ""@)),
            ("expand-change"@, plain("method"@, ""@)),
        ]),
        ("el-table-column"@, seq![
            ("type"@, ("attribute"@, ""@, seq!["selection"@, "index"@, "expand"@])),
            ("index"@, plain("attribute"@, ""@)),
            ("column-key"@, plain("attribute"@, ""@)),
            ("label"@, plain("attribute"@, ""@)),
            ("prop"@, plain("attribute"@, ""@)),
            ("width"@, plain("attribute"@, ""@)),
            ("min-width"@, plain("attribute"@, ""@)),
            ("fixed"@, ("attribute"@, ""@, seq!["true"@, "left"@, "right"@])),
            ("sortable"@, ("attribute"@, ""@, seq!["true"@, "false"@, "custom"@])),
            ("sort-method"@, plain("attribute"@, ""@)),
            ("sort-by"@, plain("attribute"@, ""@)),
            ("resizable"@, plain("attribute"@, ""@)),
            ("formatter"@, plain("attribute"@, ""@)),
            ("show-overflow-tooltip"@, plain("attribute"@, ""@)),
            ("align"@, ("attribute"@, ""@, seq!["left"@, "center"@, "right"@])),
            ("header-align"@, ("attribute"@, ""@, seq!["left"@, "center"@, "right"@])),
            ("class-name"@, plain("attribute"@, ""@)),
            ("selectable"@, plain("attribute"@, ""@)),
            ("filters"@, plain("attribute"@, ""@)),
            ("filter-method"@, plain("attribute"@, ""@)),
        ]),
        ("el-tag"@, seq![
            ("type"@, ("attribute"@, ""@, seq!["success"@, "info"@, "warning"@, "danger"@])),
            ("closable"@, plain("attribute"@, ""@)),
            ("disable-transitions"@, plain("attribute"@, ""@)),
            ("hit"@, plain("attribute"@, ""@)),
            ("color"@, plain("attribute"@, ""@)),
            ("size"@, ("attribute"@, ""@, seq!["medium"@, "small"@, "mini"@])),
            ("close"@, plain("method"@, ""@)),
        ]),
        ("el-progress"@, seq![
            ("percentage"@, plain("attribute"@, ""@)),
            ("type"@, ("attribute"@, ""@, seq!["line"@, "circle"@])),
            ("stroke-width"@, plain("attribute"@, ""@)),
            ("text-inside"@, plain("attribute"@, ""@)),
            ("status"@, ("attribute"@, ""@, seq!["success"@, "exception"@])),
            ("color"@, plain("attribute"@, ""@)),
            ("width"@, plain("attribute"@, ""@)),
            ("show-text"@, plain("attribute"@, ""@)),
        ]),
    ]
}

/// Part 4 of the catalogue.
pub open spec fn spec_element_attributes_part_4() -> Seq<
    (Seq<char>, Seq<(Seq<char>, (Seq<char>, Seq<char>, Seq<Seq<char>>))>),
> {
    seq![
        ("el-tree"@, seq![
            ("data"@, plain("attribute"@, ""@)),
            ("empty-text"@, plain("attribute"@, ""@)),
            ("node-key"@, plain("attribute"@, ""@)),
            ("props"@, plain("attribute"@, ""@)),
            ("load"@, plain("attribute"@, ""@)),
            ("render-content"@, plain("attribute"@, ""@)),
            ("highlight-current"@, plain("attribute"@, ""@)),
            ("default-expand-all"@, plain("attribute"@, ""@)),
            ("expand-on-click-node"@, plain("attribute"@, ""@)),
            ("check-on-click-node"@, plain("attribute"@, ""@)),
            ("auto-expand-parent"@, plain("attribute"@, ""@)),
            ("show-checkbox"@, plain("attribute"@, ""@)),
            ("check-strictly"@, plain("attribute"@, ""@)),
            ("accordion"@, plain("attribute"@, ""@)),
            ("indent"@, plain("attribute"@, ""@)),
            ("lazy"@, plain("attribute"@, ""@)),
            ("draggable"@, plain("attribute"@, ""@)),
            ("node-click"@, plain("method"@, ""@)),
            ("node-expand"@, plain("method"@, ""@)),
            ("check-change"@, plain("method"@, ""@)),
        ]),
        ("el-pagination"@, seq![
            ("small"@, plain("attribute"@, ""@)),
            ("background"@, plain("attribute"@, ""@)),
            ("page-size"@, plain("attribute"@, ""@)),
            ("total"@, plain("attribute"@, ""@)),
            ("page-count"@, plain("attribute"@, ""@)),
            ("pager-count"@, plain("attribute"@, ""@)),
            ("current-page"@, plain("attribute"@, ""@)),
            ("layout"@, plain("attribute"@, ""@)),
            ("page-sizes"@, plain("attribute"@, ""@)),
            ("prev-text"@, plain("attribute"@, ""@)),
            ("next-text"@, plain("attribute"@, ""@)),
            ("disabled"@, plain("attribute"@, ""@)),
            ("size-change"@, plain("method"@, ""@)),
            ("current-change"@, plain("method"@, ""@)),
        ]),
        ("el-badge"@, seq![
            ("value"@, plain("attribute"@, ""@)),
            ("max"@, plain("attribute"@, ""@)),
            ("is-dot"@, plain("attribute"@, ""@)),
            ("hidden"@, plain("attribute"@, ""@)),
            ("type"@, ("attribute"@, ""@, seq!["primary"@, "success"@, "warning"@, "danger"@, "info"@])),
        ]),
        ("el-alert"@, seq![
            ("title"@, plain("attribute"@, ""@)),
            ("type"@, ("attribute"@, ""@, seq!["success"@, "warning"@, "info"@, "error"@])),
            ("description"@, plain("attribute"@, ""@)),
            ("closable"@, plain("attribute"@, ""@)),
            ("center"@, plain("attribute"@, ""@)),
            ("close-text"@, plain("attribute"@, ""@)),
            ("show-icon"@, plain("attribute"@, ""@)),
            ("close"@, plain("method"@, ""@)),
        ]),
        ("el-menu"@, seq![
            ("mode"@, ("attribute"@, ""@, seq!["horizontal"@, "vertical"@])),
            ("collapse"@, plain("attribute"@, ""@)),
            ("background-color"@, plain("attribute"@, ""@)),
            ("text-color"@, plain("attribute"@, ""@)),
            ("active-text-color"@, plain("attribute"@, ""@)),
            ("default-active"@, plain("attribute"@, ""@)),
            ("default-openeds"@, plain("attribute"@, ""@)),
            ("unique-opened"@, plain("attribute"@, ""@)),
            ("menu-trigger"@, ("attribute"@, ""@, seq!["hover"@, "click"@])),
            ("router"@, plain("attribute"@, ""@)),
            ("collapse-transition"@, plain("attribute"@, ""@)),
            ("select"@, plain("method"@, ""@)),
            ("open"@, plain("method"@, ""@)),
            ("close"@, plain("method"@, ""@)),
        ]),
        ("el-submenu"@, seq![
            ("index"@, plain("attribute"@, ""@)),
            ("popper-class"@, plain("attribute"@, ""@)),
            ("show-timeout"@, plain("attribute"@, ""@)),
            ("hide-timeout"@, plain("attribute"@, ""@)),
            ("disabled"@, plain("attribute"@, ""@)),
        ]),
        ("el-menu-item"@, seq![
            ("index"@, plain("attribute"@, ""@)),
            ("route"@, plain("attribute"@, ""@)),
            ("disabled"@, plain("attribute"@, ""@)),
        ]),
        ("el-tabs"@, seq![
            ("v-model"@, plain("attribute"@, ""@)),
            ("type"@, ("attribute"@, ""@, seq!["card"@, "border-card"@])),
            ("closable"@, plain("attribute"@, ""@)),
            ("addable"@, plain("attribute"@, ""@)),
            ("editable"@, plain("attribute"@, ""@)),
            ("tab-position"@, ("attribute"@, ""@, seq!["top"@, "right"@, "bottom"@, "left"@])),
            ("stretch"@, plain("attribute"@, ""@)),
            ("before-leave"@, plain("attribute"@, ""@)),
            ("tab-click"@, plain("method"@, ""@)),
            ("tab-remove"@, plain("method"@, ""@)),
            ("tab-add"@, plain("method"@, ""@)),
        ]),
        ("el-tab-pane"@, seq![
            ("label"@, plain("attribute"@, ""@)),
            ("disabled"@, plain("attribute"@, ""@)),
            ("name"@, plain("attribute"@, ""@)),
            ("closable"@, plain("attribute"@, ""@)),
            ("lazy"@, plain("attribute"@, ""@)),
        ]),
        ("el-breadcrumb"@, seq![
            ("separator"@, plain("attribute"@, ""@)),
            ("separator-class"@, plain("attribute"@, ""@)),
        ]),
    ]
}

/// Part 5 of the catalogue.
pub open spec fn spec_element_attributes_part_5() -> Seq<
    (Seq<char>, Seq<(Seq<char>, (Seq<char>, Seq<char>, Seq<Seq<char>>))>),
> {
    seq![
        ("el-breadcrumb-item"@, seq![
            ("to"@, plain("attribute"@, ""@)),
            ("replace"@, plain("attribute"@, ""@)),
        ]),
        ("el-dropdown"@, seq![
            ("type"@, plain("attribute"@, ""@)),
            ("size"@, ("attribute"@, ""@, seq!["medium"@, "small"@, "mini"@])),
            ("split-button"@, plain("attribute"@, ""@)),
            ("placement"@, ("attribute"@, ""@, seq!["top"@, "top-start"@, "top-end"@, "bottom"@, "bottom-start"@, "bottom-end"@])),
            ("trigger"@, ("attribute"@, ""@, seq!["hover"@, "click"@])),
            ("hide-on-click"@, plain("attribute"@, ""@)),
            ("show-timeout"@, plain("attribute"@, ""@)),
            ("hide-timeout"@, plain("attribute"@, ""@)),
            ("click"@, plain("method"@, ""@)),
            ("command"@, plain("method"@, ""@)),
            ("visible-change"@, plain("method"@, ""@)),
        ]),
        ("el-dropdown-item"@, seq![
            ("command"@, plain("attribute"@, ""@)),
            ("disabled"@, plain("attribute"@, ""@)),
            ("divided"@, plain("attribute"@, ""@)),
            ("icon"@, plain("attribute"@, ""@)),
        ]),
        ("el-steps"@, seq![
            ("space"@, plain("attribute"@, ""@)),
            ("direction"@, ("attribute"@, ""@, seq!["vertical"@, "horizontal"@])),
            ("active"@, plain("attribute"@, ""@)),
            ("process-status"@, ("attribute"@, ""@, seq!["wait"@, "process"@, "finish"@, "error"@, "success"@])),
            ("finish-status"@, ("attribute"@, ""@, seq!["wait"@, "process"@, "finish"@, "error"@, "success"@])),
            ("align-center"@, plain("attribute"@, ""@)),
            ("simple"@, plain("attribute"@, ""@)),
        ]),
        ("el-step"@, seq![
            ("title"@, plain("attribute"@, ""@)),
            ("description"@, plain("attribute"@, ""@)),
            ("icon"@, plain("attribute"@, ""@)),
            ("status"@, ("attribute"@, ""@, seq!["wait"@, "process"@, "finish"@, "error"@, "success"@])),
        ]),
        ("el-dialog"@, seq![
            ("visible"@, plain("attribute"@, ""@)),
            ("title"@, plain("attribute"@, ""@)),
            ("width"@, plain("attribute"@, ""@)),
            ("fullscreen"@, plain("attribute"@, ""@)),
            ("top"@, plain("attribute"@, ""@)),
            ("modal"@, plain("attribute"@, ""@)),
            ("modal-append-to-body"@, plain("attribute"@, ""@)),
            ("append-to-body"@, plain("attribute"@, ""@)),
            ("lock-scroll"@, plain("attribute"@, ""@)),
            ("custom-class"@, plain("attribute"@, ""@)),
            ("close-on-click-modal"@, plain("attribute"@, ""@)),
            ("close-on-press-escape"@, plain("attribute"@, ""@)),
            ("show-close"@, plain("attribute"@, ""@)),
            ("before-close"@, plain("attribute"@, ""@)),
            ("center"@, plain("attribute"@, ""@)),
            ("open"@, plain("method"@, ""@)),
            ("close"@, plain("method"@, ""@)),
            ("opened"@, plain("method"@, ""@)),
            ("closed"@, plain("method"@, ""@)),
        ]),
        ("el-tooltip"@, seq![
            ("effect"@, ("attribute"@, ""@, seq!["dark"@, "light"@])),
            ("content"@, plain("attribute"@, ""@)),
            ("placement"@, ("attribute"@, ""@, seq!["top"@, "top-start"@, "top-end"@, "bottom"@, "bottom-start"@, "bottom-end"@, "left"@, "left-start"@, "left-end"@, "right"@, "right-start"@, "right-end"@])),
            ("value"@, plain("attribute"@, ""@)),
            ("disabled"@, plain("attribute"@, ""@)),
            ("offset"@, plain("attribute"@, ""@)),
            ("transition"@, plain("attribute"@, ""@)),
            ("popper-class"@, plain("attribute"@, ""@)),
            ("open-delay"@, plain("attribute"@, ""@)),
            ("manual"@, plain("attribute"@, ""@)),
            ("enterable"@, plain("attribute"@, ""@)),
            ("hide-after"@, plain("attribute"@, ""@)),
        ]),
        ("el-popover"@, seq![
            ("trigger"@, ("attribute"@, ""@, seq!["click"@, "focus"@, "hover"@, "manual"@])),
            ("title"@, plain("attribute"@, ""@)),
            ("content"@, plain("attribute"@, ""@)),
            ("width"@, plain("attribute"@, ""@)),
            ("placement"@, ("attribute"@, ""@, seq!["top"@, "top-start"@, "top-end"@, "bottom"@, "bottom-start"@, "bottom-end"@, "left"@, "left-start"@, "left-end"@, "right"@, "right-start"@, "right-end"@])),
            ("disabled"@, plain("attribute"@, ""@)),
            ("offset"@, plain("attribute"@, ""@)),
            ("transition"@, plain("attribute"@, ""@)),
            ("popper-class"@, plain("attribute"@, ""@)),
        ]),
        ("el-card"@, seq![
            ("header"@, plain("attribute"@, ""@)),
            ("body-style"@, plain("attribute"@, ""@)),
            ("shadow"@, ("attribute"@, ""@, seq!["always"@, "hover"@, "never"@])),
        ]),
        ("el-carousel"@, seq![
            ("height"@, plain("attribute"@, ""@)),
            ("initial-index"@, plain("attribute"@, ""@)),
            ("trigger"@, ("attribute"@, ""@, seq!["hover"@, "click"@])),
            ("autoplay"@, plain("attribute"@, ""@)),
            ("interval"@, plain("attribute"@, ""@)),
            ("indicator-position"@, ("attribute"@, ""@, seq!["outside"@, "none"@])),
            ("arrow"@, ("attribute"@, ""@, seq!["always"@, "hover"@, "never"@])),
            ("type"@, ("attribute"@, ""@, seq!["card"@])),
            ("change"@, plain("method"@, ""@)),
        ]),
    ]
}

/// Part 6 of the catalogue.
pub open spec fn spec_element_attributes_part_6() -> Seq<
    (Seq<char>, Seq<(Seq<char>, (Seq<char>, Seq<char>, Seq<Seq<char>>))>),
> {
    seq![
        ("el-carousel-item"@, seq![
            ("name"@, plain("attribute"@, ""@)),
            ("label"@, plain("attribute"@, ""@)),
        ]),
        ("el-collapse"@, seq![
            ("v-model"@, plain("attribute"@, ""@)),
            ("accordion"@, plain("attribute"@, ""@)),
            ("change"@, plain("method"@, ""@)),
        ]),
        ("el-collapse-item"@, seq![
            ("name"@, plain("attribute"@, ""@)),
            ("title"@, plain("attribute"@, ""@)),
            ("disabled"@, plain("attribute"@, ""@)),
        ]),
        ("el-timeline"@, seq![
            ("reverse"@, plain("attribute"@, ""@)),
        ]),
        ("el-timeline-item"@, seq![
            ("timestamp"@, plain("attribute"@, ""@)),
            ("hide-timestamp"@, plain("attribute"@, ""@)),
            ("placement"@, ("attribute"@, ""@, seq!["top"@, "bottom"@])),
            ("type"@, ("attribute"@, ""@, seq!["primary"@, "success"@, "warning"@, "danger"@, "info"@])),
            ("color"@, plain("attribute"@, ""@)),
            ("size"@, ("attribute"@, ""@, seq!["normal"@, "large"@])),
            ("icon"@, plain("attribute"@, ""@)),
        ]),
        ("el-divider"@, seq![
            ("direction"@, ("attribute"@, ""@, seq!["horizontal"@, "vertical"@])),
            ("content-position"@, ("attribute"@, ""@, seq!["left"@, "right"@, "center"@])),
        ]),
        ("el-calendar"@, seq![
            ("v-model"@, plain("attribute"@, ""@)),
            ("range"@, plain("attribute"@, ""@)),
        ]),
        ("el-image"@, seq![
            ("src"@, plain("attribute"@, ""@)),
            ("fit"@, ("attribute"@, ""@, seq!["fill"@, "contain"@, "cover"@, "none"@, "scale-down"@])),
            ("alt"@, plain("attribute"@, ""@)),
            ("referrer-policy"@, plain("attribute"@, ""@)),
            ("lazy"@, plain("attribute"@, ""@)),
            ("scroll-container"@, plain("attribute"@, ""@)),
            ("preview-src-list"@, plain("attribute"@, ""@)),
            ("z-index"@, plain("attribute"@, ""@)),
            ("load"@, plain("method"@, ""@)),
            ("error"@, plain("method"@, ""@)),
        ]),
        ("el-backtop"@, seq![
            ("target"@, plain("attribute"@, ""@)),
            ("visibility-height"@, plain("attribute"@, ""@)),
            ("right"@, plain("attribute"@, ""@)),
            ("bottom"@, plain("attribute"@, ""@)),
            ("click"@, plain("method"@, ""@)),
        ]),
        ("el-drawer"@, seq![
            ("append-to-body"@, plain("attribute"@, ""@)),
            ("before-close"@, plain("attribute"@, ""@)),
            ("close-on-press-escape"@, plain("attribute"@, ""@)),
            ("custom-class"@, plain("attribute"@, ""@)),
            ("destroy-on-close"@, plain("attribute"@, ""@)),
            ("modal"@, plain("attribute"@, ""@)),
            ("modal-append-to-body"@, plain("attribute"@, ""@)),
            ("direction"@, ("attribute"@, ""@, seq!["rtl"@, "ltr"@, "ttb"@, "btt"@])),
            ("show-close"@, plain("attribute"@, ""@)),
            ("size"@, plain("attribute"@, ""@)),
            ("title"@, plain("attribute"@, ""@)),
            ("visible"@, plain("attribute"@, ""@)),
            ("wrapperClosable"@, plain("attribute"@, ""@)),
            ("open"@, plain("method"@, ""@)),
            ("opened"@, plain("method"@, ""@)),
            ("close"@, plain("method"@, ""@)),
            ("closed"@, plain("method"@, ""@)),
        ]),
    ]
}

/// The per-tag attribute catalogue.
pub open spec fn spec_element_attributes() -> Seq<
    (Seq<char>, Seq<(Seq<char>, (Seq<char>, Seq<char>, Seq<Seq<char>>))>),
> {
    spec_element_attributes_part_1() + spec_element_attributes_part_2()
        + spec_element_attributes_part_3() + spec_element_attributes_part_4()
        + spec_element_attributes_part_5() + spec_element_attributes_part_6()
}

fn push_attrs_part_1(out: &mut Vec<(String, Vec<(String, AttrInfo)>)>)
    ensures
        crate::framework_data::tag_attr_table_view(final(out)@)
            == crate::framework_data::tag_attr_table_view(old(out)@)
            + spec_element_attributes_part_1(),
{
    let ghost before = crate::framework_data::tag_attr_table_view(out@);
    let mut attrs_el_row: Vec<(String, AttrInfo)> = Vec::new();
    attrs_el_row.push(("gutter".to_owned(), mk_plain("attribute", "grid spacing")));
    let mut vals_1: Vec<String> = Vec::new();
    vals_1.push("flex".to_owned());
    attrs_el_row.push(("type".to_owned(), mk_valued("attribute", "layout mode, you can use 'flex', works in modern browsers", vals_1)));
    let mut vals_2: Vec<String> = Vec::new();
    vals_2.push("start".to_owned());
    vals_2.push("end".to_owned());
    vals_2.push("center".to_owned());
    vals_2.push("space-around".to_owned());
    vals_2.push("space-between".to_owned());
    attrs_el_row.push(("justify".to_owned(), mk_valued("attribute", "horizontal alignment of flex layout", vals_2)));
    let mut vals_3: Vec<String> = Vec::new();
    vals_3.push("top".to_owned());
    vals_3.push("middle".to_owned());
    vals_3.push("bottom".to_owned());
    attrs_el_row.push(("align".to_owned(), mk_valued("attribute", "vertical alignment of flex layout", vals_3)));
    attrs_el_row.push(("tag".to_owned(), mk_plain("attribute", "custom element tag")));
    out.push(("el-row".to_owned(), attrs_el_row));
    let mut attrs_el_col: Vec<(String, AttrInfo)> = Vec::new();
    attrs_el_col.push(("span".to_owned(), mk_plain("attribute", "number of column the grid spans")));
    attrs_el_col.push(("offset".to_owned(), mk_plain("attribute", "")));
    attrs_el_col.push(("push".to_owned(), mk_plain("attribute", "number of columns that grid moves to the right")));
    attrs_el_col.push(("pull".to_owned(), mk_plain("attribute", "number of columns that grid moves to the left")));
    attrs_el_col.push(("xs".to_owned(), mk_plain("attribute", "<768px Responsive columns or column props object")));
    attrs_el_col.push(("sm".to_owned(), mk_plain("attribute", "≥768px Responsive columns or column props object")));
    attrs_el_col.push(("md".to_owned(), mk_plain("attribute", "≥992 Responsive columns or column props object")));
    attrs_el_col.push(("lg".to_owned(), mk_plain("attribute", "≥1200 Responsive columns or column props object")));
    attrs_el_col.push(("xl".to_owned(), mk_plain("attribute", "≥1200px Responsive columns or column props object, version >= 2")));
    attrs_el_col.push(("tag".to_owned(), mk_plain("attribute", "custom element tag")));
    out.push(("el-col".to_owned(), attrs_el_col));
    let mut attrs_el_button: Vec<(String, AttrInfo)> = Vec::new();
    let mut vals_4: Vec<String> = Vec::new();
    vals_4.push("primary".to_owned());
    vals_4.push("success".to_owned());
    vals_4.push("warning".to_owned());
    vals_4.push("danger".to_owned());
    vals_4.push("info".to_owned());
    vals_4.push("text".to_owned());
    attrs_el_button.push(("type".to_owned(), mk_valued("attribute", "button type", vals_4)));
    let mut vals_5: Vec<String> = Vec::new();
    vals_5.push("medium".to_owned());
    vals_5.push("small".to_owned());
    vals_5.push("mini".to_owned());
    attrs_el_button.push(("size".to_owned(), mk_valued("attribute", "", vals_5)));
    attrs_el_button.push(("plain".to_owned(), mk_plain("attribute", "determine whether it's a plain button")));
    attrs_el_button.push(("loading".to_owned(), mk_plain("attribute", "")));
    attrs_el_button.push(("disabled".to_owned(), mk_plain("attribute", "")));
    attrs_el_button.push(("icon".to_owned(), mk_plain("attribute", "")));
    attrs_el_button.push(("autofocus".to_owned(), mk_plain("attribute", "")));
    let mut vals_6: Vec<String> = Vec::new();
    vals_6.push("button".to_owned());
    vals_6.push("submit".to_owned());
    vals_6.push("reset".to_owned());
    attrs_el_button.push(("native-type".to_owned(), mk_valued("attribute", "same as native button's type", vals_6)));
    attrs_el_button.push(("round".to_owned(), mk_plain("attribute", "determine whether it's a round button, default: false")));
    attrs_el_button.push(("circle".to_owned(), mk_plain("attribute", "")));
    out.push(("el-button".to_owned(), attrs_el_button));
    let mut attrs_el_radio: Vec<(String, AttrInfo)> = Vec::new();
    attrs_el_radio.push(("label".to_owned(), mk_plain("attribute", "")));
    attrs_el_radio.push(("disabled".to_owned(), mk_plain("attribute", "")));
    attrs_el_radio.push(("border".to_owned(), mk_plain("attribute", "")));
    let mut vals_7: Vec<String> = Vec::new();
    vals_7.push("medium".to_owned());
    vals_7.push("small".to_owned());
    vals_7.push("mini".to_owned());
    attrs_el_radio.push(("size".to_owned(), mk_valued("attribute", "", vals_7)));
    attrs_el_radio.push(("name".to_owned(), mk_plain("attribute", "native 'name' attribute")));
    out.push(("el-radio".to_owned(), attrs_el_radio));
    let mut attrs_el_radio_group: Vec<(String, AttrInfo)> = Vec::new();
    attrs_el_radio_group.push(("v-model".to_owned(), mk_plain("attribute", "")));
    let mut vals_8: Vec<String> = Vec::new();
    vals_8.push("medium".to_owned());
    vals_8.push("small".to_owned());
    vals_8.push("mini".to_owned());
    attrs_el_radio_group.push(("size".to_owned(), mk_valued("attribute", "", vals_8)));
    attrs_el_radio_group.push(("fill".to_owned(), mk_plain("attribute", "border and background color when button is active")));
    attrs_el_radio_group.push(("text-color".to_owned(), mk_plain("attribute", "")));
    attrs_el_radio_group.push(("change".to_owned(), mk_plain("method", "")));
    out.push(("el-radio-group".to_owned(), attrs_el_radio_group));
    let mut attrs_el_radio_button: Vec<(String, AttrInfo)> = Vec::new();
    attrs_el_radio_button.push(("label".to_owned(), mk_plain("attribute", "")));
    attrs_el_radio_button.push(("disabled".to_owned(), mk_plain("attribute", "")));
    out.push(("el-radio-button".to_owned(), attrs_el_radio_button));
    let mut attrs_el_checkbox: Vec<(String, AttrInfo)> = Vec::new();
    attrs_el_checkbox.push(("label".to_owned(), mk_plain("attribute", "")));
    attrs_el_checkbox.push(("true-label".to_owned(), mk_plain("attribute", "value of the checkbox if it's checked")));
    attrs_el_checkbox.push(("false-label".to_owned(), mk_plain("attribute", "value of the checkbox if it's not checked")));
    attrs_el_checkbox.push(("border".to_owned(), mk_plain("attribute", "")));
    let mut vals_9: Vec<String> = Vec::new();
    vals_9.push("medium".to_owned());
    vals_9.push("small".to_owned());
    vals_9.push("mini".to_owned());
    attrs_el_checkbox.push(("size".to_owned(), mk_valued("attribute", "", vals_9)));
    attrs_el_checkbox.push(("name".to_owned(), mk_plain("attribute", "native 'name' attribute")));
    attrs_el_checkbox.push(("checked".to_owned(), mk_plain("attribute", "")));
    attrs_el_checkbox.push(("indeterminate".to_owned(), mk_plain("attribute", "same as indeterminate in native checkbox")));
    attrs_el_checkbox.push(("disabled".to_owned(), mk_plain("attribute", "")));
    out.push(("el-checkbox".to_owned(), attrs_el_checkbox));
    let mut attrs_el_checkbox_group: Vec<(String, AttrInfo)> = Vec::new();
    attrs_el_checkbox_group.push(("v-model".to_owned(), mk_plain("attribute", "")));
    let mut vals_10: Vec<String> = Vec::new();
    vals_10.push("medium".to_owned());
    vals_10.push("small".to_owned());
    vals_10.push("mini".to_owned());
    attrs_el_checkbox_group.push(("size".to_owned(), mk_valued("attribute", "", vals_10)));
    attrs_el_checkbox_group.push(("fill".to_owned(), mk_plain("attribute", "border and background color when button is active")));
    attrs_el_checkbox_group.push(("text-color".to_owned(), mk_plain("attribute", "")));
    attrs_el_checkbox_group.push(("min".to_owned(), mk_plain("attribute", "minimum number of checkbox checked")));
    attrs_el_checkbox_group.push(("max".to_owned(), mk_plain("attribute", "maximum number of checkbox checked")));
    attrs_el_checkbox_group.push(("change".to_owned(), mk_plain("method", "")));
    out.push(("el-checkbox-group".to_owned(), attrs_el_checkbox_group));
    let mut attrs_el_checkbox_button: Vec<(String, AttrInfo)> = Vec::new();
    attrs_el_checkbox_button.push(("label".to_owned(), mk_plain("attribute", "")));
    out.push(("el-checkbox-button".to_owned(), attrs_el_checkbox_button));
    let mut attrs_el_input: Vec<(String, AttrInfo)> = Vec::new();
    attrs_el_input.push(("v-model".to_owned(), mk_plain("attribute", "")));
    attrs_el_input.push(("placeholder".to_owned(), mk_plain("attribute", "")));
    attrs_el_input.push(("type".to_owned(), mk_plain("attribute", "Same as the 'type' attribute of native input, except that it can be 'textarea'")));
    attrs_el_input.push(("value".to_owned(), mk_plain("attribute", "")));
    attrs_el_input.push(("maxlength".to_owned(), mk_plain("attribute", "maximum Input text length")));
    attrs_el_input.push(("minlength".to_owned(), mk_plain("attribute", "minimum Input text length")));
    attrs_el_input.push(("disabled".to_owned(), mk_plain("attribute", "")));
    let mut vals_11: Vec<String> = Vec::new();
    vals_11.push("medium".to_owned());
    vals_11.push("small".to_owned());
    vals_11.push("mini".to_owned());
    attrs_el_input.push(("size".to_owned(), mk_valued("attribute", "", vals_11)));
    attrs_el_input.push(("icon".to_owned(), mk_plain("attribute", "icon name")));
    attrs_el_input.push(("prefix-icon".to_owned(), mk_plain("attribute", "prefix icon class")));
    attrs_el_input.push(("suffix-icon".to_owned(), mk_plain("attribute", "suffix icon class")));
    attrs_el_input.push(("rows".to_owned(), mk_plain("attribute", "number of rows of textarea, only works when type is 'textarea'")));
    attrs_el_input.push(("autosize".to_owned(), mk_plain("attribute", "whether textarea has an adaptive height")));
    let mut vals_12: Vec<String> = Vec::new();
    vals_12.push("one".to_owned());
    vals_12.push("off".to_owned());
    attrs_el_input.push(("auto-complete".to_owned(), mk_valued("attribute", "", vals_12)));
    attrs_el_input.push(("name".to_owned(), mk_plain("attribute", "native 'name' attribute")));
    attrs_el_input.push(("readonly".to_owned(), mk_plain("attribute", "")));
    attrs_el_input.push(("max".to_owned(), mk_plain("attribute", "")));
    attrs_el_input.push(("min".to_owned(), mk_plain("attribute", "")));
    attrs_el_input.push(("step".to_owned(), mk_plain("attribute", "same as step in native input")));
    let mut vals_13: Vec<String> = Vec::new();
    vals_13.push("none".to_owned());
    vals_13.push("both".to_owned());
    vals_13.push("horizontal".to_owned());
    vals_13.push("vertical".to_owned());
    attrs_el_input.push(("resize".to_owned(), mk_valued("attribute", "control the resizability", vals_13)));
    attrs_el_input.push(("autofocus".to_owned(), mk_plain("attribute", "")));
    attrs_el_input.push(("form".to_owned(), mk_plain("attribute", "same as 'form' in native input")));
    attrs_el_input.push(("label".to_owned(), mk_plain("attribute", "")));
    attrs_el_input.push(("tabindex".to_owned(), mk_plain("attribute", "input tabindex")));
    attrs_el_input.push(("clearable".to_owned(), mk_plain("attribute", "")));
    attrs_el_input.push(("on-icon-click".to_owned(), mk_plain("attribute", "hook function when clicking on the input icon")));
    attrs_el_input.push(("click".to_owned(), mk_plain("method", "")));
    attrs_el_input.push(("blur".to_owned(), mk_plain("method", "")));
    attrs_el_input.push(("focus".to_owned(), mk_plain("method", "")));
    attrs_el_input.push(("change".to_owned(), mk_plain("method", "")));
    attrs_el_input.push(("clear".to_owned(), mk_plain("method", "triggers when the Input is cleared by the button which generated by the 'clearable' attribute")));
    out.push(("el-input".to_owned(), attrs_el_input));
    proof {
        assert(crate::framework_data::tag_attr_table_view(out@) =~~= before
            + spec_element_attributes_part_1());
    }
}

fn push_attrs_part_2(out: &mut Vec<(String, Vec<(String, AttrInfo)>)>)
    ensures
        crate::framework_data::tag_attr_table_view(final(out)@)
            == crate::framework_data::tag_attr_table_view(old(out)@)
            + spec_element_attributes_part_2(),
{
    let ghost before = crate::framework_data::tag_attr_table_view(out@);
    let mut attrs_el_autocomplete: Vec<(String, AttrInfo)> = Vec::new();
    attrs_el_autocomplete.push(("v-model".to_owned(), mk_plain("attribute", "")));
    attrs_el_autocomplete.push(("placeholder".to_owned(), mk_plain("attribute", "")));
    attrs_el_autocomplete.push(("value".to_owned(), mk_plain("attribute", "")));
    attrs_el_autocomplete.push(("debounce".to_owned(), mk_plain("attribute", "debounce delay when typing, in milliseconds, default: 300")));
    attrs_el_autocomplete.push(("disabled".to_owned(), mk_plain("attribute", "")));
    attrs_el_autocomplete.push(("props".to_owned(), mk_plain("attribute", "")));
    attrs_el_autocomplete.push(("custom-item".to_owned(), mk_plain("attribute", "component name of your customized suggestion list item")));
    attrs_el_autocomplete.push(("icon".to_owned(), mk_plain("attribute", "")));
    attrs_el_autocomplete.push(("fetch-suggestions".to_owned(), mk_plain("attribute", "a method to fetch input suggestions")));
    attrs_el_autocomplete.push(("popper-class".to_owned(), mk_plain("attribute", "")));
    attrs_el_autocomplete.push(("trigger-on-focus".to_owned(), mk_plain("attribute", "whether show suggestions when input focus")));
    attrs_el_autocomplete.push(("on-icon-click".to_owned(), mk_plain("attribute", "hook function when clicking on the input icon")));
    attrs_el_autocomplete.push(("select-when-unmatched".to_owned(), mk_plain("attribute", "whether to emit a 'select' event on enter when there is no autocomplete match")));
    attrs_el_autocomplete.push(("label".to_owned(), mk_plain("attribute", "")));
    attrs_el_autocomplete.push(("prefix-icon".to_owned(), mk_plain("attribute", "prefix icon class")));
    attrs_el_autocomplete.push(("suffix-icon".to_owned(), mk_plain("attribute", "suffix icon class")));
    attrs_el_autocomplete.push(("select".to_owned(), mk_plain("method", "")));
    out.push(("el-autocomplete".to_owned(), attrs_el_autocomplete));
    let mut attrs_el_input_number: Vec<(String, AttrInfo)> = Vec::new();
    attrs_el_input_number.push(("v-model".to_owned(), mk_plain("attribute", "")));
    attrs_el_input_number.push(("placeholder".to_owned(), mk_plain("attribute", "")));
    attrs_el_input_number.push(("value".to_owned(), mk_plain("attribute", "")));
    attrs_el_input_number.push(("min".to_owned(), mk_plain("attribute", "the minimum allowed value")));
    attrs_el_input_number.push(("max".to_owned(), mk_plain("attribute", "the maximum allowed value")));
    attrs_el_input_number.push(("step".to_owned(), mk_plain("attribute", "incremental step")));
    let mut vals_1: Vec<String> = Vec::new();
    vals_1.push("medium".to_owned());
    vals_1.push("small".to_owned());
    vals_1.push("mini".to_owned());
    attrs_el_input_number.push(("size".to_owned(), mk_valued("attribute", "", vals_1)));
    attrs_el_input_number.push(("disabled".to_owned(), mk_plain("attribute", "")));
    let mut vals_2: Vec<String> = Vec::new();
    vals_2.push("right".to_owned());
    attrs_el_input_number.push(("controls-position".to_owned(), mk_valued("attribute", "position of the control buttons", vals_2)));
    attrs_el_input_number.push(("controls".to_owned(), mk_plain("attribute", "")));
    attrs_el_input_number.push(("debounce".to_owned(), mk_plain("attribute", "debounce delay when typing, in millisecond")));
    attrs_el_input_number.push(("change".to_owned(), mk_plain("method", "")));
    out.push(("el-input-number".to_owned(), attrs_el_input_number));
    let mut attrs_el_select: Vec<(String, AttrInfo)> = Vec::new();
    attrs_el_select.push(("v-model".to_owned(), mk_plain("attribute", "")));
    attrs_el_select.push(("placeholder".to_owned(), mk_plain("attribute", "")));
    attrs_el_select.push(("multiple".to_owned(), mk_plain("attribute", "")));
    attrs_el_select.push(("disabled".to_owned(), mk_plain("attribute", "")));
    attrs_el_select.push(("value-key".to_owned(), mk_plain("attribute", "unique identity key name for value")));
    let mut vals_3: Vec<String> = Vec::new();
    vals_3.push("medium".to_owned());
    vals_3.push("small".to_owned());
    vals_3.push("mini".to_owned());
    attrs_el_select.push(("size".to_owned(), mk_valued("attribute", "", vals_3)));
    attrs_el_select.push(("clearable".to_owned(), mk_plain("attribute", "")));
    attrs_el_select.push(("collapse-tags".to_owned(), mk_plain("attribute", "whether to collapse tags to a text when multiple selecting")));
    attrs_el_select.push(("multiple-limit".to_owned(), mk_plain("attribute", "maximum number of options user can select when multiple is true")));
    attrs_el_select.push(("name".to_owned(), mk_plain("attribute", "native 'name' attribute")));
    let mut vals_4: Vec<String> = Vec::new();
    vals_4.push("one".to_owned());
    vals_4.push("off".to_owned());
    attrs_el_select.push(("auto-complete".to_owned(), mk_valued("attribute", "", vals_4)));
    attrs_el_select.push(("filterable".to_owned(), mk_plain("attribute", "")));
    attrs_el_select.push(("allow-create".to_owned(), mk_plain("attribute", "")));
    attrs_el_select.push(("filter-method".to_owned(), mk_plain("attribute", "")));
    attrs_el_select.push(("remote".to_owned(), mk_plain("attribute", "")));
    attrs_el_select.push(("remote-method".to_owned(), mk_plain("attribute", "")));
    attrs_el_select.push(("loading".to_owned(), mk_plain("attribute", "")));
    attrs_el_select.push(("loading-text".to_owned(), mk_plain("attribute", "displayed text while loading data from server")));
    attrs_el_select.push(("no-match-text".to_owned(), mk_plain("attribute", "displayed text when no data matches the filtering query")));
    attrs_el_select.push(("no-data-text".to_owned(), mk_plain("attribute", "displayed text when there is no options")));
    attrs_el_select.push(("popper-class".to_owned(), mk_plain("attribute", "")));
    attrs_el_select.push(("reserve-keyword".to_owned(), mk_plain("attribute", "when 'multiple' and 'filter' is true, whether to reserve current keyword after selecting an option")));
    attrs_el_select.push(("default-first-option".to_owned(), mk_plain("attribute", "select first matching option on enter key")));
    attrs_el_select.push(("popper-append-to-body".to_owned(), mk_plain("attribute", "whether to append the popper menu to body")));
    attrs_el_select.push(("change".to_owned(), mk_plain("method", "")));
    attrs_el_select.push(("visible-change".to_owned(), mk_plain("method", "")));
    attrs_el_select.push(("remote-tag".to_owned(), mk_plain("attribute", "")));
    attrs_el_select.push(("clear".to_owned(), mk_plain("method", "triggers when the clear icon is clicked in a clearable Select")));
    attrs_el_select.push(("blur".to_owned(), mk_plain("method", "")));
    attrs_el_select.push(("focus".to_owned(), mk_plain("method", "")));
    out.push(("el-select".to_owned(), attrs_el_select));
    let mut attrs_el_option_group: Vec<(String, AttrInfo)> = Vec::new();
    attrs_el_option_group.push(("v-for".to_owned(), mk_plain("attribute", "")));
    attrs_el_option_group.push(("key".to_owned(), mk_plain("attribute", "")));
    attrs_el_option_group.push(("label".to_owned(), mk_plain("attribute", "")));
    attrs_el_option_group.push(("disabled".to_owned(), mk_plain("attribute", "")));
    out.push(("el-option-group".to_owned(), attrs_el_option_group));
    let mut attrs_el_option: Vec<(String, AttrInfo)> = Vec::new();
    attrs_el_option.push(("label".to_owned(), mk_plain("attribute", "")));
    attrs_el_option.push(("value".to_owned(), mk_plain("attribute", "")));
    attrs_el_option.push(("disabled".to_owned(), mk_plain("attribute", "")));
    out.push(("el-option".to_owned(), attrs_el_option));
    let mut attrs_el_cascader: Vec<(String, AttrInfo)> = Vec::new();
    attrs_el_cascader.push(("options".to_owned(), mk_plain("attribute", "")));
    attrs_el_cascader.push(("v-model".to_owned(), mk_plain("attribute", "")));
    attrs_el_cascader.push(("props".to_owned(), mk_plain("attribute", "")));
    attrs_el_cascader.push(("separator".to_owned(), mk_plain("attribute", "")));
    attrs_el_cascader.push(("popper-class".to_owned(), mk_plain("attribute", "")));
    attrs_el_cascader.push(("placeholder".to_owned(), mk_plain("attribute", "")));
    attrs_el_cascader.push(("disabled".to_owned(), mk_plain("attribute", "")));
    attrs_el_cascader.push(("clearable".to_owned(), mk_plain("attribute", "")));
    let mut vals_5: Vec<String> = Vec::new();
    vals_5.push("click".to_owned());
    vals_5.push("hover".to_owned());
    attrs_el_cascader.push(("expand-trigger".to_owned(), mk_valued("attribute", "", vals_5)));
    attrs_el_cascader.push(("show-all-levels".to_owned(), mk_plain("attribute", "")));
    attrs_el_cascader.push(("filterable".to_owned(), mk_plain("attribute", "")));
    attrs_el_cascader.push(("debounce".to_owned(), mk_plain("attribute", "")));
    attrs_el_cascader.push(("change-on-select".to_owned(), mk_plain("attribute", "")));
    let mut vals_6: Vec<String> = Vec::new();
    vals_6.push("medium".to_owned());
    vals_6.push("small".to_owned());
    vals_6.push("mini".to_owned());
    attrs_el_cascader.push(("size".to_owned(), mk_valued("attribute", "", vals_6)));
    attrs_el_cascader.push(("change".to_owned(), mk_plain("method", "")));
    attrs_el_cascader.push(("active-item-change".to_owned(), mk_plain("method", "")));
    attrs_el_cascader.push(("blur".to_owned(), mk_plain("method", "")));
    attrs_el_cascader.push(("focus".to_owned(), mk_plain("method", "")));
    out.push(("el-cascader".to_owned(), attrs_el_cascader));
    let mut attrs_el_switch: Vec<(String, AttrInfo)> = Vec::new();
    attrs_el_switch.push(("v-model".to_owned(), mk_plain("attribute", "")));
    attrs_el_switch.push(("disabled".to_owned(), mk_plain("attribute", "")));
    attrs_el_switch.push(("width".to_owned(), mk_plain("attribute", "")));
    attrs_el_switch.push(("active-icon-class".to_owned(), mk_plain("attribute", "")));
    attrs_el_switch.push(("inactive-icon-class".to_owned(), mk_plain("attribute", "")));
    attrs_el_switch.push(("active-text".to_owned(), mk_plain("attribute", "")));
    attrs_el_switch.push(("inactive-text".to_owned(), mk_plain("attribute", "")));
    attrs_el_switch.push(("active-value".to_owned(), mk_plain("attribute", "")));
    attrs_el_switch.push(("inactive-value".to_owned(), mk_plain("attribute", "")));
    attrs_el_switch.push(("active-color".to_owned(), mk_plain("attribute", "")));
    attrs_el_switch.push(("inactive-color".to_owned(), mk_plain("attribute", "")));
    attrs_el_switch.push(("name".to_owned(), mk_plain("attribute", "")));
    attrs_el_switch.push(("change".to_owned(), mk_plain("method", "")));
    out.push(("el-switch".to_owned(), attrs_el_switch));
    let mut attrs_el_slider: Vec<(String, AttrInfo)> = Vec::new();
    attrs_el_slider.push(("v-model".to_owned(), mk_plain("attribute", "")));
    attrs_el_slider.push(("min".to_owned(), mk_plain("attribute", "")));
    attrs_el_slider.push(("max".to_owned(), mk_plain("attribute", "")));
    attrs_el_slider.push(("disabled".to_owned(), mk_plain("attribute", "")));
    attrs_el_slider.push(("step".to_owned(), mk_plain("attribute", "")));
    attrs_el_slider.push(("show-input".to_owned(), mk_plain("attribute", "")));
    attrs_el_slider.push(("show-stops".to_owned(), mk_plain("attribute", "")));
    attrs_el_slider.push(("range".to_owned(), mk_plain("attribute", "")));
    attrs_el_slider.push(("vertical".to_owned(), mk_plain("attribute", "")));
    attrs_el_slider.push(("height".to_owned(), mk_plain("attribute", "")));
    attrs_el_slider.push(("change".to_owned(), mk_plain("method", "")));
    out.push(("el-slider".to_owned(), attrs_el_slider));
    let mut attrs_el_time_picker: Vec<(String, AttrInfo)> = Vec::new();
    attrs_el_time_picker.push(("v-model".to_owned(), mk_plain("attribute", "")));
    attrs_el_time_picker.push(("readonly".to_owned(), mk_plain("attribute", "")));
    attrs_el_time_picker.push(("disabled".to_owned(), mk_plain("attribute", "")));
    attrs_el_time_picker.push(("editable".to_owned(), mk_plain("attribute", "")));
    attrs_el_time_picker.push(("clearable".to_owned(), mk_plain("attribute", "")));
    let mut vals_7: Vec<String> = Vec::new();
    vals_7.push("medium".to_owned());
    vals_7.push("small".to_owned());
    vals_7.push("mini".to_owned());
    attrs_el_time_picker.push(("size".to_owned(), mk_valued("attribute", "", vals_7)));
    attrs_el_time_picker.push(("placeholder".to_owned(), mk_plain("attribute", "")));
    attrs_el_time_picker.push(("is-range".to_owned(), mk_plain("attribute", "")));
    attrs_el_time_picker.push(("arrow-control".to_owned(), mk_plain("attribute", "")));
    attrs_el_time_picker.push(("picker-options".to_owned(), mk_plain("attribute", "")));
    attrs_el_time_picker.push(("change".to_owned(), mk_plain("method", "")));
    out.push(("el-time-picker".to_owned(), attrs_el_time_picker));
    let mut attrs_el_date_picker: Vec<(String, AttrInfo)> = Vec::new();
    attrs_el_date_picker.push(("v-model".to_owned(), mk_plain("attribute", "")));
    attrs_el_date_picker.push(("readonly".to_owned(), mk_plain("attribute", "")));
    attrs_el_date_picker.push(("disabled".to_owned(), mk_plain("attribute", "")));
    attrs_el_date_picker.push(("editable".to_owned(), mk_plain("attribute", "")));
    attrs_el_date_picker.push(("clearable".to_owned(), mk_plain("attribute", "")));
    let mut vals_8: Vec<String> = Vec::new();
    vals_8.push("large".to_owned());
    vals_8.push("small".to_owned());
    vals_8.push("mini".to_owned());
    attrs_el_date_picker.push(("size".to_owned(), mk_valued("attribute", "", vals_8)));
    attrs_el_date_picker.push(("placeholder".to_owned(), mk_plain("attribute", "")));
    let mut vals_9: Vec<String> = Vec::new();
    vals_9.push("year".to_owned());
    vals_9.push("month".to_owned());
    vals_9.push("date".to_owned());
    vals_9.push("dates".to_owned());
    vals_9.push("week".to_owned());
    vals_9.push("datetime".to_owned());
    vals_9.push("datetimerange".to_owned());
    vals_9.push("daterange".to_owned());
    attrs_el_date_picker.push(("type".to_owned(), mk_valued("attribute", "", vals_9)));
    attrs_el_date_picker.push(("format".to_owned(), mk_plain("attribute", "")));
    let mut vals_10: Vec<String> = Vec::new();
    vals_10.push("left".to_owned());
    vals_10.push("center".to_owned());
    vals_10.push("right".to_owned());
    attrs_el_date_picker.push(("align".to_owned(), mk_valued("attribute", "", vals_10)));
    attrs_el_date_picker.push(("popper-class".to_owned(), mk_plain("attribute", "")));
    attrs_el_date_picker.push(("picker-options".to_owned(), mk_plain("attribute", "")));
    attrs_el_date_picker.push(("range-separator".to_owned(), mk_plain("attribute", "")));
    attrs_el_date_picker.push(("default-value".to_owned(), mk_plain("attribute", "")));
    attrs_el_date_picker.push(("value-format".to_owned(), mk_plain("attribute", "")));
    attrs_el_date_picker.push(("change".to_owned(), mk_plain("method", "")));
    attrs_el_date_picker.push(("blur".to_owned(), mk_plain("method", "")));
    attrs_el_date_picker.push(("focus".to_owned(), mk_plain("method", "")));
    out.push(("el-date-picker".to_owned(), attrs_el_date_picker));
    proof {
        assert(crate::framework_data::tag_attr_table_view(out@) =~~= before
            + spec_element_attributes_part_2());
    }
}

fn push_attrs_part_3(out: &mut Vec<(String, Vec<(String, AttrInfo)>)>)
    ensures
        crate::framework_data::tag_attr_table_view(final(out)@)
            == crate::framework_data::tag_attr_table_view(old(out)@)
            + spec_element_attributes_part_3(),
{
    let ghost before = crate::framework_data::tag_attr_table_view(out@);
    let mut attrs_el_upload: Vec<(String, AttrInfo)> = Vec::new();
    attrs_el_upload.push(("action".to_owned(), mk_plain("attribute", "")));
    attrs_el_upload.push(("headers".to_owned(), mk_plain("attribute", "")));
    attrs_el_upload.push(("multiple".to_owned(), mk_plain("attribute", "")));
    attrs_el_upload.push(("data".to_owned(), mk_plain("attribute", "")));
    attrs_el_upload.push(("name".to_owned(), mk_plain("attribute", "")));
    attrs_el_upload.push(("with-credentials".to_owned(), mk_plain("attribute", "")));
    attrs_el_upload.push(("show-file-list".to_owned(), mk_plain("attribute", "")));
    attrs_el_upload.push(("drag".to_owned(), mk_plain("attribute", "")));
    attrs_el_upload.push(("accept".to_owned(), mk_plain("attribute", "")));
    attrs_el_upload.push(("on-preview".to_owned(), mk_plain("attribute", "")));
    attrs_el_upload.push(("on-remove".to_owned(), mk_plain("attribute", "")));
    attrs_el_upload.push(("on-success".to_owned(), mk_plain("attribute", "")));
    attrs_el_upload.push(("on-error".to_owned(), mk_plain("attribute", "")));
    attrs_el_upload.push(("on-progress".to_owned(), mk_plain("attribute", "")));
    attrs_el_upload.push(("on-change".to_owned(), mk_plain("attribute", "")));
    attrs_el_upload.push(("before-upload".to_owned(), mk_plain("attribute", "")));
    attrs_el_upload.push(("before-remove".to_owned(), mk_plain("attribute", "")));
    let mut vals_1: Vec<String> = Vec::new();
    vals_1.push("text".to_owned());
    vals_1.push("picture".to_owned());
    vals_1.push("picture-card".to_owned());
    attrs_el_upload.push(("list-type".to_owned(), mk_valued("attribute", "", vals_1)));
    attrs_el_upload.push(("auto-upload".to_owned(), mk_plain("attribute", "")));
    attrs_el_upload.push(("file-list".to_owned(), mk_plain("attribute", "")));
    attrs_el_upload.push(("disabled".to_owned(), mk_plain("attribute", "")));
    attrs_el_upload.push(("limit".to_owned(), mk_plain("attribute", "")));
    attrs_el_upload.push(("on-exceed".to_owned(), mk_plain("attribute", "")));
    out.push(("el-upload".to_owned(), attrs_el_upload));
    let mut attrs_el_rate: Vec<(String, AttrInfo)> = Vec::new();
    attrs_el_rate.push(("v-model".to_owned(), mk_plain("attribute", "")));
    attrs_el_rate.push(("max".to_owned(), mk_plain("attribute", "")));
    attrs_el_rate.push(("disabled".to_owned(), mk_plain("attribute", "")));
    attrs_el_rate.push(("allow-half".to_owned(), mk_plain("attribute", "")));
    attrs_el_rate.push(("low-threshold".to_owned(), mk_plain("attribute", "")));
    attrs_el_rate.push(("high-threshold".to_owned(), mk_plain("attribute", "")));
    attrs_el_rate.push(("colors".to_owned(), mk_plain("attribute", "")));
    attrs_el_rate.push(("show-text".to_owned(), mk_plain("attribute", "")));
    attrs_el_rate.push(("show-score".to_owned(), mk_plain("attribute", "")));
    attrs_el_rate.push(("texts".to_owned(), mk_plain("attribute", "")));
    attrs_el_rate.push(("change".to_owned(), mk_plain("method", "")));
    out.push(("el-rate".to_owned(), attrs_el_rate));
    let mut attrs_el_color_picker: Vec<(String, AttrInfo)> = Vec::new();
    attrs_el_color_picker.push(("v-model".to_owned(), mk_plain("attribute", "")));
    attrs_el_color_picker.push(("disabled".to_owned(), mk_plain("attribute", "")));
    let mut vals_2: Vec<String> = Vec::new();
    vals_2.push("medium".to_owned());
    vals_2.push("small".to_owned());
    vals_2.push("mini".to_owned());
    attrs_el_color_picker.push(("size".to_owned(), mk_valued("attribute", "", vals_2)));
    attrs_el_color_picker.push(("show-alpha".to_owned(), mk_plain("attribute", "")));
    let mut vals_3: Vec<String> = Vec::new();
    vals_3.push("hsl".to_owned());
    vals_3.push("hsv".to_owned());
    vals_3.push("hex".to_owned());
    vals_3.push("rgb".to_owned());
    attrs_el_color_picker.push(("color-format".to_owned(), mk_valued("attribute", "", vals_3)));
    attrs_el_color_picker.push(("popper-class".to_owned(), mk_plain("attribute", "")));
    attrs_el_color_picker.push(("predefine".to_owned(), mk_plain("attribute", "")));
    attrs_el_color_picker.push(("change".to_owned(), mk_plain("method", "")));
    out.push(("el-color-picker".to_owned(), attrs_el_color_picker));
    let mut attrs_el_transfer: Vec<(String, AttrInfo)> = Vec::new();
    attrs_el_transfer.push(("v-model".to_owned(), mk_plain("attribute", "")));
    attrs_el_transfer.push(("data".to_owned(), mk_plain("attribute", "")));
    attrs_el_transfer.push(("filterable".to_owned(), mk_plain("attribute", "")));
    attrs_el_transfer.push(("filter-placeholder".to_owned(), mk_plain("attribute", "")));
    attrs_el_transfer.push(("filter-method".to_owned(), mk_plain("attribute", "")));
    let mut vals_4: Vec<String> = Vec::new();
    vals_4.push("original".to_owned());
    vals_4.push("push".to_owned());
    vals_4.push("unshift".to_owned());
    attrs_el_transfer.push(("target-order".to_owned(), mk_valued("attribute", "", vals_4)));
    attrs_el_transfer.push(("titles".to_owned(), mk_plain("attribute", "")));
    attrs_el_transfer.push(("button-texts".to_owned(), mk_plain("attribute", "")));
    attrs_el_transfer.push(("render-content".to_owned(), mk_plain("attribute", "")));
    attrs_el_transfer.push(("format".to_owned(), mk_plain("attribute", "")));
    attrs_el_transfer.push(("props".to_owned(), mk_plain("attribute", "")));
    attrs_el_transfer.push(("left-default-checked".to_owned(), mk_plain("attribute", "")));
    attrs_el_transfer.push(("right-default-checked".to_owned(), mk_plain("attribute", "")));
    attrs_el_transfer.push(("change".to_owned(), mk_plain("method", "")));
    out.push(("el-transfer".to_owned(), attrs_el_transfer));
    let mut attrs_el_form: Vec<(String, AttrInfo)> = Vec::new();
    attrs_el_form.push(("model".to_owned(), mk_plain("attribute", "")));
    attrs_el_form.push(("rules".to_owned(), mk_plain("attribute", "")));
    attrs_el_form.push(("inline".to_owned(), mk_plain("attribute", "")));
    let mut vals_5: Vec<String> = Vec::new();
    vals_5.push("right".to_owned());
    vals_5.push("left".to_owned());
    vals_5.push("top".to_owned());
    attrs_el_form.push(("label-position".to_owned(), mk_valued("attribute", "", vals_5)));
    attrs_el_form.push(("label-width".to_owned(), mk_plain("attribute", "")));
    attrs_el_form.push(("label-suffix".to_owned(), mk_plain("attribute", "")));
    attrs_el_form.push(("hide-required-asterisk".to_owned(), mk_plain("attribute", "")));
    attrs_el_form.push(("show-message".to_owned(), mk_plain("attribute", "")));
    attrs_el_form.push(("inline-message".to_owned(), mk_plain("attribute", "")));
    attrs_el_form.push(("status-icon".to_owned(), mk_plain("attribute", "")));
    attrs_el_form.push(("validate-on-rule-change".to_owned(), mk_plain("attribute", "")));
    let mut vals_6: Vec<String> = Vec::new();
    vals_6.push("medium".to_owned());
    vals_6.push("small".to_owned());
    vals_6.push("mini".to_owned());
    attrs_el_form.push(("size".to_owned(), mk_valued("attribute", "", vals_6)));
    attrs_el_form.push(("disabled".to_owned(), mk_plain("attribute", "")));
    out.push(("el-form".to_owned(), attrs_el_form));
    let mut attrs_el_form_item: Vec<(String, AttrInfo)> = Vec::new();
    attrs_el_form_item.push(("prop".to_owned(), mk_plain("attribute", "")));
    attrs_el_form_item.push(("label".to_owned(), mk_plain("attribute", "")));
    attrs_el_form_item.push(("label-width".to_owned(), mk_plain("attribute", "")));
    attrs_el_form_item.push(("required".to_owned(), mk_plain("attribute", "")));
    attrs_el_form_item.push(("rules".to_owned(), mk_plain("attribute", "")));
    attrs_el_form_item.push(("error".to_owned(), mk_plain("attribute", "")));
    attrs_el_form_item.push(("show-message".to_owned(), mk_plain("attribute", "")));
    attrs_el_form_item.push(("inline-message".to_owned(), mk_plain("attribute", "")));
    let mut vals_7: Vec<String> = Vec::new();
    vals_7.push("medium".to_owned());
    vals_7.push("small".to_owned());
    vals_7.push("mini".to_owned());
    attrs_el_form_item.push(("size".to_owned(), mk_valued("attribute", "", vals_7)));
    out.push(("el-form-item".to_owned(), attrs_el_form_item));
    let mut attrs_el_table: Vec<(String, AttrInfo)> = Vec::new();
    attrs_el_table.push(("data".to_owned(), mk_plain("attribute", "")));
    attrs_el_table.push(("height".to_owned(), mk_plain("attribute", "")));
    attrs_el_table.push(("max-height".to_owned(), mk_plain("attribute", "")));
    attrs_el_table.push(("stripe".to_owned(), mk_plain("attribute", "")));
    attrs_el_table.push(("border".to_owned(), mk_plain("attribute", "")));
    let mut vals_8: Vec<String> = Vec::new();
    vals_8.push("medium".to_owned());
    vals_8.push("small".to_owned());
    vals_8.push("mini".to_owned());
    attrs_el_table.push(("size".to_owned(), mk_valued("attribute", "", vals_8)));
    attrs_el_table.push(("fit".to_owned(), mk_plain("attribute", "")));
    attrs_el_table.push(("show-header".to_owned(), mk_plain("attribute", "")));
    attrs_el_table.push(("highlight-current-row".to_owned(), mk_plain("attribute", "")));
    attrs_el_table.push(("current-row-key".to_owned(), mk_plain("attribute", "")));
    attrs_el_table.push(("row-class-name".to_owned(), mk_plain("attribute", "")));
    attrs_el_table.push(("row-style".to_owned(), mk_plain("attribute", "")));
    attrs_el_table.push(("row-key".to_owned(), mk_plain("attribute", "")));
    attrs_el_table.push(("empty-text".to_owned(), mk_plain("attribute", "")));
    attrs_el_table.push(("default-expand-all".to_owned(), mk_plain("attribute", "")));
    attrs_el_table.push(("default-sort".to_owned(), mk_plain("attribute", "")));
    attrs_el_table.push(("show-summary".to_owned(), mk_plain("attribute", "")));
    attrs_el_table.push(("sum-text".to_owned(), mk_plain("attribute", "")));
    attrs_el_table.push(("summary-method".to_owned(), mk_plain("attribute", "")));
    attrs_el_table.push(("span-method".to_owned(), mk_plain("attribute", "")));
    attrs_el_table.push(("select".to_owned(), mk_plain("method", "")));
    attrs_el_table.push(("select-all".to_owned(), mk_plain("method", "")));
    attrs_el_table.push(("selection-change".to_owned(), mk_plain("method", "")));
    attrs_el_table.push(("cell-click".to_owned(), mk_plain("method", "")));
    attrs_el_table.push(("row-click".to_owned(), mk_plain("method", "")));
    attrs_el_table.push(("sort-change".to_owned(), mk_plain("method", "")));
    attrs_el_table.push(("filter-change".to_owned(), mk_plain("method", "")));
    attrs_el_table.push(("current-change".to_owned(), mk_plain("method", "")));
    attrs_el_table.push(("expand-change".to_owned(), mk_plain("method", "")));
    out.push(("el-table".to_owned(), attrs_el_table));
    let mut attrs_el_table_column: Vec<(String, AttrInfo)> = Vec::new();
    let mut vals_9: Vec<String> = Vec::new();
    vals_9.push("selection".to_owned());
    vals_9.push("index".to_owned());
    vals_9.push("expand".to_owned());
    attrs_el_table_column.push(("type".to_owned(), mk_valued("attribute", "", vals_9)));
    attrs_el_table_column.push(("index".to_owned(), mk_plain("attribute", "")));
    attrs_el_table_column.push(("column-key".to_owned(), mk_plain("attribute", "")));
    attrs_el_table_column.push(("label".to_owned(), mk_plain("attribute", "")));
    attrs_el_table_column.push(("prop".to_owned(), mk_plain("attribute", "")));
    attrs_el_table_column.push(("width".to_owned(), mk_plain("attribute", "")));
    attrs_el_table_column.push(("min-width".to_owned(), mk_plain("attribute", "")));
    let mut vals_10: Vec<String> = Vec::new();
    vals_10.push("true".to_owned());
    vals_10.push("left".to_owned());
    vals_10.push("right".to_owned());
    attrs_el_table_column.push(("fixed".to_owned(), mk_valued("attribute", "", vals_10)));
    let mut vals_11: Vec<String> = Vec::new();
    vals_11.push("true".to_owned());
    vals_11.push("false".to_owned());
    vals_11.push("custom".to_owned());
    attrs_el_table_column.push(("sortable".to_owned(), mk_valued("attribute", "", vals_11)));
    attrs_el_table_column.push(("sort-method".to_owned(), mk_plain("attribute", "")));
    attrs_el_table_column.push(("sort-by".to_owned(), mk_plain("attribute", "")));
    attrs_el_table_column.push(("resizable".to_owned(), mk_plain("attribute", "")));
    attrs_el_table_column.push(("formatter".to_owned(), mk_plain("attribute", "")));
    attrs_el_table_column.push(("show-overflow-tooltip".to_owned(), mk_plain("attribute", "")));
    let mut vals_12: Vec<String> = Vec::new();
    vals_12.push("left".to_owned());
    vals_12.push("center".to_owned());
    vals_12.push("right".to_owned());
    attrs_el_table_column.push(("align".to_owned(), mk_valued("attribute", "", vals_12)));
    let mut vals_13: Vec<String> = Vec::new();
    vals_13.push("left".to_owned());
    vals_13.push("center".to_owned());
    vals_13.push("right".to_owned());
    attrs_el_table_column.push(("header-align".to_owned(), mk_valued("attribute", "", vals_13)));
    attrs_el_table_column.push(("class-name".to_owned(), mk_plain("attribute", "")));
    attrs_el_table_column.push(("selectable".to_owned(), mk_plain("attribute", "")));
    attrs_el_table_column.push(("filters".to_owned(), mk_plain("attribute", "")));
    attrs_el_table_column.push(("filter-method".to_owned(), mk_plain("attribute", "")));
    out.push(("el-table-column".to_owned(), attrs_el_table_column));
    let mut attrs_el_tag: Vec<(String, AttrInfo)> = Vec::new();
    let mut vals_14: Vec<String> = Vec::new();
    vals_14.push("success".to_owned());
    vals_14.push("info".to_owned());
    vals_14.push("warning".to_owned());
    vals_14.push("danger".to_owned());
    attrs_el_tag.push(("type".to_owned(), mk_valued("attribute", "", vals_14)));
    attrs_el_tag.push(("closable".to_owned(), mk_plain("attribute", "")));
    attrs_el_tag.push(("disable-transitions".to_owned(), mk_plain("attribute", "")));
    attrs_el_tag.push(("hit".to_owned(), mk_plain("attribute", "")));
    attrs_el_tag.push(("color".to_owned(), mk_plain("attribute", "")));
    let mut vals_15: Vec<String> = Vec::new();
    vals_15.push("medium".to_owned());
    vals_15.push("small".to_owned());
    vals_15.push("mini".to_owned());
    attrs_el_tag.push(("size".to_owned(), mk_valued("attribute", "", vals_15)));
    attrs_el_tag.push(("close".to_owned(), mk_plain("method", "")));
    out.push(("el-tag".to_owned(), attrs_el_tag));
    let mut attrs_el_progress: Vec<(String, AttrInfo)> = Vec::new();
    attrs_el_progress.push(("percentage".to_owned(), mk_plain("attribute", "")));
    let mut vals_16: Vec<String> = Vec::new();
    vals_16.push("line".to_owned());
    vals_16.push("circle".to_owned());
    attrs_el_progress.push(("type".to_owned(), mk_valued("attribute", "", vals_16)));
    attrs_el_progress.push(("stroke-width".to_owned(), mk_plain("attribute", "")));
    attrs_el_progress.push(("text-inside".to_owned(), mk_plain("attribute", "")));
    let mut vals_17: Vec<String> = Vec::new();
    vals_17.push("success".to_owned());
    vals_17.push("exception".to_owned());
    attrs_el_progress.push(("status".to_owned(), mk_valued("attribute", "", vals_17)));
    attrs_el_progress.push(("color".to_owned(), mk_plain("attribute", "")));
    attrs_el_progress.push(("width".to_owned(), mk_plain("attribute", "")));
    attrs_el_progress.push(("show-text".to_owned(), mk_plain("attribute", "")));
    out.push(("el-progress".to_owned(), attrs_el_progress));
    proof {
        assert(crate::framework_data::tag_attr_table_view(out@) =~~= before
            + spec_element_attributes_part_3());
    }
}

fn push_attrs_part_4(out: &mut Vec<(String, Vec<(String, AttrInfo)>)>)
    ensures
        crate::framework_data::tag_attr_table_view(final(out)@)
            == crate::framework_data::tag_attr_table_view(old(out)@)
            + spec_element_attributes_part_4(),
{
    let ghost before = crate::framework_data::tag_attr_table_view(out@);
    let mut attrs_el_tree: Vec<(String, AttrInfo)> = Vec::new();
    attrs_el_tree.push(("data".to_owned(), mk_plain("attribute", "")));
    attrs_el_tree.push(("empty-text".to_owned(), mk_plain("attribute", "")));
    attrs_el_tree.push(("node-key".to_owned(), mk_plain("attribute", "")));
    attrs_el_tree.push(("props".to_owned(), mk_plain("attribute", "")));
    attrs_el_tree.push(("load".to_owned(), mk_plain("attribute", "")));
    attrs_el_tree.push(("render-content".to_owned(), mk_plain("attribute", "")));
    attrs_el_tree.push(("highlight-current".to_owned(), mk_plain("attribute", "")));
    attrs_el_tree.push(("default-expand-all".to_owned(), mk_plain("attribute", "")));
    attrs_el_tree.push(("expand-on-click-node".to_owned(), mk_plain("attribute", "")));
    attrs_el_tree.push(("check-on-click-node".to_owned(), mk_plain("attribute", "")));
    attrs_el_tree.push(("auto-expand-parent".to_owned(), mk_plain("attribute", "")));
    attrs_el_tree.push(("show-checkbox".to_owned(), mk_plain("attribute", "")));
    attrs_el_tree.push(("check-strictly".to_owned(), mk_plain("attribute", "")));
    attrs_el_tree.push(("accordion".to_owned(), mk_plain("attribute", "")));
    attrs_el_tree.push(("indent".to_owned(), mk_plain("attribute", "")));
    attrs_el_tree.push(("lazy".to_owned(), mk_plain("attribute", "")));
    attrs_el_tree.push(("draggable".to_owned(), mk_plain("attribute", "")));
    attrs_el_tree.push(("node-click".to_owned(), mk_plain("method", "")));
    attrs_el_tree.push(("node-expand".to_owned(), mk_plain("method", "")));
    attrs_el_tree.push(("check-change".to_owned(), mk_plain("method", "")));
    out.push(("el-tree".to_owned(), attrs_el_tree));
    let mut attrs_el_pagination: Vec<(String, AttrInfo)> = Vec::new();
    attrs_el_pagination.push(("small".to_owned(), mk_plain("attribute", "")));
    attrs_el_pagination.push(("background".to_owned(), mk_plain("attribute", "")));
    attrs_el_pagination.push(("page-size".to_owned(), mk_plain("attribute", "")));
    attrs_el_pagination.push(("total".to_owned(), mk_plain("attribute", "")));
    attrs_el_pagination.push(("page-count".to_owned(), mk_plain("attribute", "")));
    attrs_el_pagination.push(("pager-count".to_owned(), mk_plain("attribute", "")));
    attrs_el_pagination.push(("current-page".to_owned(), mk_plain("attribute", "")));
    attrs_el_pagination.push(("layout".to_owned(), mk_plain("attribute", "")));
    attrs_el_pagination.push(("page-sizes".to_owned(), mk_plain("attribute", "")));
    attrs_el_pagination.push(("prev-text".to_owned(), mk_plain("attribute", "")));
    attrs_el_pagination.push(("next-text".to_owned(), mk_plain("attribute", "")));
    attrs_el_pagination.push(("disabled".to_owned(), mk_plain("attribute", "")));
    attrs_el_pagination.push(("size-change".to_owned(), mk_plain("method", "")));
    attrs_el_pagination.push(("current-change".to_owned(), mk_plain("method", "")));
    out.push(("el-pagination".to_owned(), attrs_el_pagination));
    let mut attrs_el_badge: Vec<(String, AttrInfo)> = Vec::new();
    attrs_el_badge.push(("value".to_owned(), mk_plain("attribute", "")));
    attrs_el_badge.push(("max".to_owned(), mk_plain("attribute", "")));
    attrs_el_badge.push(("is-dot".to_owned(), mk_plain("attribute", "")));
    attrs_el_badge.push(("hidden".to_owned(), mk_plain("attribute", "")));
    let mut vals_1: Vec<String> = Vec::new();
    vals_1.push("primary".to_owned());
    vals_1.push("success".to_owned());
    vals_1.push("warning".to_owned());
    vals_1.push("danger".to_owned());
    vals_1.push("info".to_owned());
    attrs_el_badge.push(("type".to_owned(), mk_valued("attribute", "", vals_1)));
    out.push(("el-badge".to_owned(), attrs_el_badge));
    let mut attrs_el_alert: Vec<(String, AttrInfo)> = Vec::new();
    attrs_el_alert.push(("title".to_owned(), mk_plain("attribute", "")));
    let mut vals_2: Vec<String> = Vec::new();
    vals_2.push("success".to_owned());
    vals_2.push("warning".to_owned());
    vals_2.push("info".to_owned());
    vals_2.push("error".to_owned());
    attrs_el_alert.push(("type".to_owned(), mk_valued("attribute", "", vals_2)));
    attrs_el_alert.push(("description".to_owned(), mk_plain("attribute", "")));
    attrs_el_alert.push(("closable".to_owned(), mk_plain("attribute", "")));
    attrs_el_alert.push(("center".to_owned(), mk_plain("attribute", "")));
    attrs_el_alert.push(("close-text".to_owned(), mk_plain("attribute", "")));
    attrs_el_alert.push(("show-icon".to_owned(), mk_plain("attribute", "")));
    attrs_el_alert.push(("close".to_owned(), mk_plain("method", "")));
    out.push(("el-alert".to_owned(), attrs_el_alert));
    let mut attrs_el_menu: Vec<(String, AttrInfo)> = Vec::new();
    let mut vals_3: Vec<String> = Vec::new();
    vals_3.push("horizontal".to_owned());
    vals_3.push("vertical".to_owned());
    attrs_el_menu.push(("mode".to_owned(), mk_valued("attribute", "", vals_3)));
    attrs_el_menu.push(("collapse".to_owned(), mk_plain("attribute", "")));
    attrs_el_menu.push(("background-color".to_owned(), mk_plain("attribute", "")));
    attrs_el_menu.push(("text-color".to_owned(), mk_plain("attribute", "")));
    attrs_el_menu.push(("active-text-color".to_owned(), mk_plain("attribute", "")));
    attrs_el_menu.push(("default-active".to_owned(), mk_plain("attribute", "")));
    attrs_el_menu.push(("default-openeds".to_owned(), mk_plain("attribute", "")));
    attrs_el_menu.push(("unique-opened".to_owned(), mk_plain("attribute", "")));
    let mut vals_4: Vec<String> = Vec::new();
    vals_4.push("hover".to_owned());
    vals_4.push("click".to_owned());
    attrs_el_menu.push(("menu-trigger".to_owned(), mk_valued("attribute", "", vals_4)));
    attrs_el_menu.push(("router".to_owned(), mk_plain("attribute", "")));
    attrs_el_menu.push(("collapse-transition".to_owned(), mk_plain("attribute", "")));
    attrs_el_menu.push(("select".to_owned(), mk_plain("method", "")));
    attrs_el_menu.push(("open".to_owned(), mk_plain("method", "")));
    attrs_el_menu.push(("close".to_owned(), mk_plain("method", "")));
    out.push(("el-menu".to_owned(), attrs_el_menu));
    let mut attrs_el_submenu: Vec<(String, AttrInfo)> = Vec::new();
    attrs_el_submenu.push(("index".to_owned(), mk_plain("attribute", "")));
    attrs_el_submenu.push(("popper-class".to_owned(), mk_plain("attribute", "")));
    attrs_el_submenu.push(("show-timeout".to_owned(), mk_plain("attribute", "")));
    attrs_el_submenu.push(("hide-timeout".to_owned(), mk_plain("attribute", "")));
    attrs_el_submenu.push(("disabled".to_owned(), mk_plain("attribute", "")));
    out.push(("el-submenu".to_owned(), attrs_el_submenu));
    let mut attrs_el_menu_item: Vec<(String, AttrInfo)> = Vec::new();
    attrs_el_menu_item.push(("index".to_owned(), mk_plain("attribute", "")));
    attrs_el_menu_item.push(("route".to_owned(), mk_plain("attribute", "")));
    attrs_el_menu_item.push(("disabled".to_owned(), mk_plain("attribute", "")));
    out.push(("el-menu-item".to_owned(), attrs_el_menu_item));
    let mut attrs_el_tabs: Vec<(String, AttrInfo)> = Vec::new();
    attrs_el_tabs.push(("v-model".to_owned(), mk_plain("attribute", "")));
    let mut vals_5: Vec<String> = Vec::new();
    vals_5.push("card".to_owned());
    vals_5.push("border-card".to_owned());
    attrs_el_tabs.push(("type".to_owned(), mk_valued("attribute", "", vals_5)));
    attrs_el_tabs.push(("closable".to_owned(), mk_plain("attribute", "")));
    attrs_el_tabs.push(("addable".to_owned(), mk_plain("attribute", "")));
    attrs_el_tabs.push(("editable".to_owned(), mk_plain("attribute", "")));
    let mut vals_6: Vec<String> = Vec::new();
    vals_6.push("top".to_owned());
    vals_6.push("right".to_owned());
    vals_6.push("bottom".to_owned());
    vals_6.push("left".to_owned());
    attrs_el_tabs.push(("tab-position".to_owned(), mk_valued("attribute", "", vals_6)));
    attrs_el_tabs.push(("stretch".to_owned(), mk_plain("attribute", "")));
    attrs_el_tabs.push(("before-leave".to_owned(), mk_plain("attribute", "")));
    attrs_el_tabs.push(("tab-click".to_owned(), mk_plain("method", "")));
    attrs_el_tabs.push(("tab-remove".to_owned(), mk_plain("method", "")));
    attrs_el_tabs.push(("tab-add".to_owned(), mk_plain("method", "")));
    out.push(("el-tabs".to_owned(), attrs_el_tabs));
    let mut attrs_el_tab_pane: Vec<(String, AttrInfo)> = Vec::new();
    attrs_el_tab_pane.push(("label".to_owned(), mk_plain("attribute", "")));
    attrs_el_tab_pane.push(("disabled".to_owned(), mk_plain("attribute", "")));
    attrs_el_tab_pane.push(("name".to_owned(), mk_plain("attribute", "")));
    attrs_el_tab_pane.push(("closable".to_owned(), mk_plain("attribute", "")));
    attrs_el_tab_pane.push(("lazy".to_owned(), mk_plain("attribute", "")));
    out.push(("el-tab-pane".to_owned(), attrs_el_tab_pane));
    let mut attrs_el_breadcrumb: Vec<(String, AttrInfo)> = Vec::new();
    attrs_el_breadcrumb.push(("separator".to_owned(), mk_plain("attribute", "")));
    attrs_el_breadcrumb.push(("separator-class".to_owned(), mk_plain("attribute", "")));
    out.push(("el-breadcrumb".to_owned(), attrs_el_breadcrumb));
    proof {
        assert(crate::framework_data::tag_attr_table_view(out@) =~~= before
            + spec_element_attributes_part_4());
    }
}

fn push_attrs_part_5(out: &mut Vec<(String, Vec<(String, AttrInfo)>)>)
    ensures
        crate::framework_data::tag_attr_table_view(final(out)@)
            == crate::framework_data::tag_attr_table_view(old(out)@)
            + spec_element_attributes_part_5(),
{
    let ghost before = crate::framework_data::tag_attr_table_view(out@);
    let mut attrs_el_breadcrumb_item: Vec<(String, AttrInfo)> = Vec::new();
    attrs_el_breadcrumb_item.push(("to".to_owned(), mk_plain("attribute", "")));
    attrs_el_breadcrumb_item.push(("replace".to_owned(), mk_plain("attribute", "")));
    out.push(("el-breadcrumb-item".to_owned(), attrs_el_breadcrumb_item));
    let mut attrs_el_dropdown: Vec<(String, AttrInfo)> = Vec::new();
    attrs_el_dropdown.push(("type".to_owned(), mk_plain("attribute", "")));
    let mut vals_1: Vec<String> = Vec::new();
    vals_1.push("medium".to_owned());
    vals_1.push("small".to_owned());
    vals_1.push("mini".to_owned());
    attrs_el_dropdown.push(("size".to_owned(), mk_valued("attribute", "", vals_1)));
    attrs_el_dropdown.push(("split-button".to_owned(), mk_plain("attribute", "")));
    let mut vals_2: Vec<String> = Vec::new();
    vals_2.push("top".to_owned());
    vals_2.push("top-start".to_owned());
    vals_2.push("top-end".to_owned());
    vals_2.push("bottom".to_owned());
    vals_2.push("bottom-start".to_owned());
    vals_2.push("bottom-end".to_owned());
    attrs_el_dropdown.push(("placement".to_owned(), mk_valued("attribute", "", vals_2)));
    let mut vals_3: Vec<String> = Vec::new();
    vals_3.push("hover".to_owned());
    vals_3.push("click".to_owned());
    attrs_el_dropdown.push(("trigger".to_owned(), mk_valued("attribute", "", vals_3)));
    attrs_el_dropdown.push(("hide-on-click".to_owned(), mk_plain("attribute", "")));
    attrs_el_dropdown.push(("show-timeout".to_owned(), mk_plain("attribute", "")));
    attrs_el_dropdown.push(("hide-timeout".to_owned(), mk_plain("attribute", "")));
    attrs_el_dropdown.push(("click".to_owned(), mk_plain("method", "")));
    attrs_el_dropdown.push(("command".to_owned(), mk_plain("method", "")));
    attrs_el_dropdown.push(("visible-change".to_owned(), mk_plain("method", "")));
    out.push(("el-dropdown".to_owned(), attrs_el_dropdown));
    let mut attrs_el_dropdown_item: Vec<(String, AttrInfo)> = Vec::new();
    attrs_el_dropdown_item.push(("command".to_owned(), mk_plain("attribute", "")));
    attrs_el_dropdown_item.push(("disabled".to_owned(), mk_plain("attribute", "")));
    attrs_el_dropdown_item.push(("divided".to_owned(), mk_plain("attribute", "")));
    attrs_el_dropdown_item.push(("icon".to_owned(), mk_plain("attribute", "")));
    out.push(("el-dropdown-item".to_owned(), attrs_el_dropdown_item));
    let mut attrs_el_steps: Vec<(String, AttrInfo)> = Vec::new();
    attrs_el_steps.push(("space".to_owned(), mk_plain("attribute", "")));
    let mut vals_4: Vec<String> = Vec::new();
    vals_4.push("vertical".to_owned());
    vals_4.push("horizontal".to_owned());
    attrs_el_steps.push(("direction".to_owned(), mk_valued("attribute", "", vals_4)));
    attrs_el_steps.push(("active".to_owned(), mk_plain("attribute", "")));
    let mut vals_5: Vec<String> = Vec::new();
    vals_5.push("wait".to_owned());
    vals_5.push("process".to_owned());
    vals_5.push("finish".to_owned());
    vals_5.push("error".to_owned());
    vals_5.push("success".to_owned());
    attrs_el_steps.push(("process-status".to_owned(), mk_valued("attribute", "", vals_5)));
    let mut vals_6: Vec<String> = Vec::new();
    vals_6.push("wait".to_owned());
    vals_6.push("process".to_owned());
    vals_6.push("finish".to_owned());
    vals_6.push("error".to_owned());
    vals_6.push("success".to_owned());
    attrs_el_steps.push(("finish-status".to_owned(), mk_valued("attribute", "", vals_6)));
    attrs_el_steps.push(("align-center".to_owned(), mk_plain("attribute", "")));
    attrs_el_steps.push(("simple".to_owned(), mk_plain("attribute", "")));
    out.push(("el-steps".to_owned(), attrs_el_steps));
    let mut attrs_el_step: Vec<(String, AttrInfo)> = Vec::new();
    attrs_el_step.push(("title".to_owned(), mk_plain("attribute", "")));
    attrs_el_step.push(("description".to_owned(), mk_plain("attribute", "")));
    attrs_el_step.push(("icon".to_owned(), mk_plain("attribute", "")));
    let mut vals_7: Vec<String> = Vec::new();
    vals_7.push("wait".to_owned());
    vals_7.push("process".to_owned());
    vals_7.push("finish".to_owned());
    vals_7.push("error".to_owned());
    vals_7.push("success".to_owned());
    attrs_el_step.push(("status".to_owned(), mk_valued("attribute", "", vals_7)));
    out.push(("el-step".to_owned(), attrs_el_step));
    let mut attrs_el_dialog: Vec<(String, AttrInfo)> = Vec::new();
    attrs_el_dialog.push(("visible".to_owned(), mk_plain("attribute", "")));
    attrs_el_dialog.push(("title".to_owned(), mk_plain("attribute", "")));
    attrs_el_dialog.push(("width".to_owned(), mk_plain("attribute", "")));
    attrs_el_dialog.push(("fullscreen".to_owned(), mk_plain("attribute", "")));
    attrs_el_dialog.push(("top".to_owned(), mk_plain("attribute", "")));
    attrs_el_dialog.push(("modal".to_owned(), mk_plain("attribute", "")));
    attrs_el_dialog.push(("modal-append-to-body".to_owned(), mk_plain("attribute", "")));
    attrs_el_dialog.push(("append-to-body".to_owned(), mk_plain("attribute", "")));
    attrs_el_dialog.push(("lock-scroll".to_owned(), mk_plain("attribute", "")));
    attrs_el_dialog.push(("custom-class".to_owned(), mk_plain("attribute", "")));
    attrs_el_dialog.push(("close-on-click-modal".to_owned(), mk_plain("attribute", "")));
    attrs_el_dialog.push(("close-on-press-escape".to_owned(), mk_plain("attribute", "")));
    attrs_el_dialog.push(("show-close".to_owned(), mk_plain("attribute", "")));
    attrs_el_dialog.push(("before-close".to_owned(), mk_plain("attribute", "")));
    attrs_el_dialog.push(("center".to_owned(), mk_plain("attribute", "")));
    attrs_el_dialog.push(("open".to_owned(), mk_plain("method", "")));
    attrs_el_dialog.push(("close".to_owned(), mk_plain("method", "")));
    attrs_el_dialog.push(("opened".to_owned(), mk_plain("method", "")));
    attrs_el_dialog.push(("closed".to_owned(), mk_plain("method", "")));
    out.push(("el-dialog".to_owned(), attrs_el_dialog));
    let mut attrs_el_tooltip: Vec<(String, AttrInfo)> = Vec::new();
    let mut vals_8: Vec<String> = Vec::new();
    vals_8.push("dark".to_owned());
    vals_8.push("light".to_owned());
    attrs_el_tooltip.push(("effect".to_owned(), mk_valued("attribute", "", vals_8)));
    attrs_el_tooltip.push(("content".to_owned(), mk_plain("attribute", "")));
    let mut vals_9: Vec<String> = Vec::new();
    vals_9.push("top".to_owned());
    vals_9.push("top-start".to_owned());
    vals_9.push("top-end".to_owned());
    vals_9.push("bottom".to_owned());
    vals_9.push("bottom-start".to_owned());
    vals_9.push("bottom-end".to_owned());
    vals_9.push("left".to_owned());
    vals_9.push("left-start".to_owned());
    vals_9.push("left-end".to_owned());
    vals_9.push("right".to_owned());
    vals_9.push("right-start".to_owned());
    vals_9.push("right-end".to_owned());
    attrs_el_tooltip.push(("placement".to_owned(), mk_valued("attribute", "", vals_9)));
    attrs_el_tooltip.push(("value".to_owned(), mk_plain("attribute", "")));
    attrs_el_tooltip.push(("disabled".to_owned(), mk_plain("attribute", "")));
    attrs_el_tooltip.push(("offset".to_owned(), mk_plain("attribute", "")));
    attrs_el_tooltip.push(("transition".to_owned(), mk_plain("attribute", "")));
    attrs_el_tooltip.push(("popper-class".to_owned(), mk_plain("attribute", "")));
    attrs_el_tooltip.push(("open-delay".to_owned(), mk_plain("attribute", "")));
    attrs_el_tooltip.push(("manual".to_owned(), mk_plain("attribute", "")));
    attrs_el_tooltip.push(("enterable".to_owned(), mk_plain("attribute", "")));
    attrs_el_tooltip.push(("hide-after".to_owned(), mk_plain("attribute", "")));
    out.push(("el-tooltip".to_owned(), attrs_el_tooltip));
    let mut attrs_el_popover: Vec<(String, AttrInfo)> = Vec::new();
    let mut vals_10: Vec<String> = Vec::new();
    vals_10.push("click".to_owned());
    vals_10.push("focus".to_owned());
    vals_10.push("hover".to_owned());
    vals_10.push("manual".to_owned());
    attrs_el_popover.push(("trigger".to_owned(), mk_valued("attribute", "", vals_10)));
    attrs_el_popover.push(("title".to_owned(), mk_plain("attribute", "")));
    attrs_el_popover.push(("content".to_owned(), mk_plain("attribute", "")));
    attrs_el_popover.push(("width".to_owned(), mk_plain("attribute", "")));
    let mut vals_11: Vec<String> = Vec::new();
    vals_11.push("top".to_owned());
    vals_11.push("top-start".to_owned());
    vals_11.push("top-end".to_owned());
    vals_11.push("bottom".to_owned());
    vals_11.push("bottom-start".to_owned());
    vals_11.push("bottom-end".to_owned());
    vals_11.push("left".to_owned());
    vals_11.push("left-start".to_owned());
    vals_11.push("left-end".to_owned());
    vals_11.push("right".to_owned());
    vals_11.push("right-start".to_owned());
    vals_11.push("right-end".to_owned());
    attrs_el_popover.push(("placement".to_owned(), mk_valued("attribute", "", vals_11)));
    attrs_el_popover.push(("disabled".to_owned(), mk_plain("attribute", "")));
    attrs_el_popover.push(("offset".to_owned(), mk_plain("attribute", "")));
    attrs_el_popover.push(("transition".to_owned(), mk_plain("attribute", "")));
    attrs_el_popover.push(("popper-class".to_owned(), mk_plain("attribute", "")));
    out.push(("el-popover".to_owned(), attrs_el_popover));
    let mut attrs_el_card: Vec<(String, AttrInfo)> = Vec::new();
    attrs_el_card.push(("header".to_owned(), mk_plain("attribute", "")));
    attrs_el_card.push(("body-style".to_owned(), mk_plain("attribute", "")));
    let mut vals_12: Vec<String> = Vec::new();
    vals_12.push("always".to_owned());
    vals_12.push("hover".to_owned());
    vals_12.push("never".to_owned());
    attrs_el_card.push(("shadow".to_owned(), mk_valued("attribute", "", vals_12)));
    out.push(("el-card".to_owned(), attrs_el_card));
    let mut attrs_el_carousel: Vec<(String, AttrInfo)> = Vec::new();
    attrs_el_carousel.push(("height".to_owned(), mk_plain("attribute", "")));
    attrs_el_carousel.push(("initial-index".to_owned(), mk_plain("attribute", "")));
    let mut vals_13: Vec<String> = Vec::new();
    vals_13.push("hover".to_owned());
    vals_13.push("click".to_owned());
    attrs_el_carousel.push(("trigger".to_owned(), mk_valued("attribute", "", vals_13)));
    attrs_el_carousel.push(("autoplay".to_owned(), mk_plain("attribute", "")));
    attrs_el_carousel.push(("interval".to_owned(), mk_plain("attribute", "")));
    let mut vals_14: Vec<String> = Vec::new();
    vals_14.push("outside".to_owned());
    vals_14.push("none".to_owned());
    attrs_el_carousel.push(("indicator-position".to_owned(), mk_valued("attribute", "", vals_14)));
    let mut vals_15: Vec<String> = Vec::new();
    vals_15.push("always".to_owned());
    vals_15.push("hover".to_owned());
    vals_15.push("never".to_owned());
    attrs_el_carousel.push(("arrow".to_owned(), mk_valued("attribute", "", vals_15)));
    let mut vals_16: Vec<String> = Vec::new();
    vals_16.push("card".to_owned());
    attrs_el_carousel.push(("type".to_owned(), mk_valued("attribute", "", vals_16)));
    attrs_el_carousel.push(("change".to_owned(), mk_plain("method", "")));
    out.push(("el-carousel".to_owned(), attrs_el_carousel));
    proof {
        assert(crate::framework_data::tag_attr_table_view(out@) =~~= before
            + spec_element_attributes_part_5());
    }
}

fn push_attrs_part_6(out: &mut Vec<(String, Vec<(String, AttrInfo)>)>)
    ensures
        crate::framework_data::tag_attr_table_view(final(out)@)
            == crate::framework_data::tag_attr_table_view(old(out)@)
            + spec_element_attributes_part_6(),
{
    let ghost before = crate::framework_data::tag_attr_table_view(out@);
    let mut attrs_el_carousel_item: Vec<(String, AttrInfo)> = Vec::new();
    attrs_el_carousel_item.push(("name".to_owned(), mk_plain("attribute", "")));
    attrs_el_carousel_item.push(("label".to_owned(), mk_plain("attribute", "")));
    out.push(("el-carousel-item".to_owned(), attrs_el_carousel_item));
    let mut attrs_el_collapse: Vec<(String, AttrInfo)> = Vec::new();
    attrs_el_collapse.push(("v-model".to_owned(), mk_plain("attribute", "")));
    attrs_el_collapse.push(("accordion".to_owned(), mk_plain("attribute", "")));
    attrs_el_collapse.push(("change".to_owned(), mk_plain("method", "")));
    out.push(("el-collapse".to_owned(), attrs_el_collapse));
    let mut attrs_el_collapse_item: Vec<(String, AttrInfo)> = Vec::new();
    attrs_el_collapse_item.push(("name".to_owned(), mk_plain("attribute", "")));
    attrs_el_collapse_item.push(("title".to_owned(), mk_plain("attribute", "")));
    attrs_el_collapse_item.push(("disabled".to_owned(), mk_plain("attribute", "")));
    out.push(("el-collapse-item".to_owned(), attrs_el_collapse_item));
    let mut attrs_el_timeline: Vec<(String, AttrInfo)> = Vec::new();
    attrs_el_timeline.push(("reverse".to_owned(), mk_plain("attribute", "")));
    out.push(("el-timeline".to_owned(), attrs_el_timeline));
    let mut attrs_el_timeline_item: Vec<(String, AttrInfo)> = Vec::new();
    attrs_el_timeline_item.push(("timestamp".to_owned(), mk_plain("attribute", "")));
    attrs_el_timeline_item.push(("hide-timestamp".to_owned(), mk_plain("attribute", "")));
    let mut vals_1: Vec<String> = Vec::new();
    vals_1.push("top".to_owned());
    vals_1.push("bottom".to_owned());
    attrs_el_timeline_item.push(("placement".to_owned(), mk_valued("attribute", "", vals_1)));
    let mut vals_2: Vec<String> = Vec::new();
    vals_2.push("primary".to_owned());
    vals_2.push("success".to_owned());
    vals_2.push("warning".to_owned());
    vals_2.push("danger".to_owned());
    vals_2.push("info".to_owned());
    attrs_el_timeline_item.push(("type".to_owned(), mk_valued("attribute", "", vals_2)));
    attrs_el_timeline_item.push(("color".to_owned(), mk_plain("attribute", "")));
    let mut vals_3: Vec<String> = Vec::new();
    vals_3.push("normal".to_owned());
    vals_3.push("large".to_owned());
    attrs_el_timeline_item.push(("size".to_owned(), mk_valued("attribute", "", vals_3)));
    attrs_el_timeline_item.push(("icon".to_owned(), mk_plain("attribute", "")));
    out.push(("el-timeline-item".to_owned(), attrs_el_timeline_item));
    let mut attrs_el_divider: Vec<(String, AttrInfo)> = Vec::new();
    let mut vals_4: Vec<String> = Vec::new();
    vals_4.push("horizontal".to_owned());
    vals_4.push("vertical".to_owned());
    attrs_el_divider.push(("direction".to_owned(), mk_valued("attribute", "", vals_4)));
    let mut vals_5: Vec<String> = Vec::new();
    vals_5.push("left".to_owned());
    vals_5.push("right".to_owned());
    vals_5.push("center".to_owned());
    attrs_el_divider.push(("content-position".to_owned(), mk_valued("attribute", "", vals_5)));
    out.push(("el-divider".to_owned(), attrs_el_divider));
    let mut attrs_el_calendar: Vec<(String, AttrInfo)> = Vec::new();
    attrs_el_calendar.push(("v-model".to_owned(), mk_plain("attribute", "")));
    attrs_el_calendar.push(("range".to_owned(), mk_plain("attribute", "")));
    out.push(("el-calendar".to_owned(), attrs_el_calendar));
    let mut attrs_el_image: Vec<(String, AttrInfo)> = Vec::new();
    attrs_el_image.push(("src".to_owned(), mk_plain("attribute", "")));
    let mut vals_6: Vec<String> = Vec::new();
    vals_6.push("fill".to_owned());
    vals_6.push("contain".to_owned());
    vals_6.push("cover".to_owned());
    vals_6.push("none".to_owned());
    vals_6.push("scale-down".to_owned());
    attrs_el_image.push(("fit".to_owned(), mk_valued("attribute", "", vals_6)));
    attrs_el_image.push(("alt".to_owned(), mk_plain("attribute", "")));
    attrs_el_image.push(("referrer-policy".to_owned(), mk_plain("attribute", "")));
    attrs_el_image.push(("lazy".to_owned(), mk_plain("attribute", "")));
    attrs_el_image.push(("scroll-container".to_owned(), mk_plain("attribute", "")));
    attrs_el_image.push(("preview-src-list".to_owned(), mk_plain("attribute", "")));
    attrs_el_image.push(("z-index".to_owned(), mk_plain("attribute", "")));
    attrs_el_image.push(("load".to_owned(), mk_plain("method", "")));
    attrs_el_image.push(("error".to_owned(), mk_plain("method", "")));
    out.push(("el-image".to_owned(), attrs_el_image));
    let mut attrs_el_backtop: Vec<(String, AttrInfo)> = Vec::new();
    attrs_el_backtop.push(("target".to_owned(), mk_plain("attribute", "")));
    attrs_el_backtop.push(("visibility-height".to_owned(), mk_plain("attribute", "")));
    attrs_el_backtop.push(("right".to_owned(), mk_plain("attribute", "")));
    attrs_el_backtop.push(("bottom".to_owned(), mk_plain("attribute", "")));
    attrs_el_backtop.push(("click".to_owned(), mk_plain("method", "")));
    out.push(("el-backtop".to_owned(), attrs_el_backtop));
    let mut attrs_el_drawer: Vec<(String, AttrInfo)> = Vec::new();
    attrs_el_drawer.push(("append-to-body".to_owned(), mk_plain("attribute", "")));
    attrs_el_drawer.push(("before-close".to_owned(), mk_plain("attribute", "")));
    attrs_el_drawer.push(("close-on-press-escape".to_owned(), mk_plain("attribute", "")));
    attrs_el_drawer.push(("custom-class".to_owned(), mk_plain("attribute", "")));
    attrs_el_drawer.push(("destroy-on-close".to_owned(), mk_plain("attribute", "")));
    attrs_el_drawer.push(("modal".to_owned(), mk_plain("attribute", "")));
    attrs_el_drawer.push(("modal-append-to-body".to_owned(), mk_plain("attribute", "")));
    let mut vals_7: Vec<String> = Vec::new();
    vals_7.push("rtl".to_owned());
    vals_7.push("ltr".to_owned());
    vals_7.push("ttb".to_owned());
    vals_7.push("btt".to_owned());
    attrs_el_drawer.push(("direction".to_owned(), mk_valued("attribute", "", vals_7)));
    attrs_el_drawer.push(("show-close".to_owned(), mk_plain("attribute", "")));
    attrs_el_drawer.push(("size".to_owned(), mk_plain("attribute", "")));
    attrs_el_drawer.push(("title".to_owned(), mk_plain("attribute", "")));
    attrs_el_drawer.push(("visible".to_owned(), mk_plain("attribute", "")));
    attrs_el_drawer.push(("wrapperClosable".to_owned(), mk_plain("attribute", "")));
    attrs_el_drawer.push(("open".to_owned(), mk_plain("method", "")));
    attrs_el_drawer.push(("opened".to_owned(), mk_plain("method", "")));
    attrs_el_drawer.push(("close".to_owned(), mk_plain("method", "")));
    attrs_el_drawer.push(("closed".to_owned(), mk_plain("method", "")));
    out.push(("el-drawer".to_owned(), attrs_el_drawer));
    proof {
        assert(crate::framework_data::tag_attr_table_view(out@) =~~= before
            + spec_element_attributes_part_6());
    }
}

/// The per-tag attribute catalogue for the element frameworks.
pub fn get_element_ui_attributes() -> (r: Vec<(String, Vec<(String, AttrInfo)>)>)
    ensures
        crate::framework_data::tag_attr_table_view(r@) == spec_element_attributes(),
{
    let mut out: Vec<(String, Vec<(String, AttrInfo)>)> = Vec::new();
    push_attrs_part_1(&mut out);
    push_attrs_part_2(&mut out);
    push_attrs_part_3(&mut out);
    push_attrs_part_4(&mut out);
    push_attrs_part_5(&mut out);
    push_attrs_part_6(&mut out);
    proof {
        assert(crate::framework_data::tag_attr_table_view(out@) =~~= spec_element_attributes());
    }
    out
}

/// An attribute record without enumerated values.
fn mk_plain(t: &str, d: &str) -> (r: AttrInfo)
    ensures
        crate::framework_data::attr_info_view(r) == plain(t@, d@),
{
    let r = AttrInfo { attr_type: t.to_owned(), description: d.to_owned(), values: Vec::new() };
    proof {
        assert(r.values.deep_view() =~~= Seq::<Seq<char>>::empty());
    }
    r
}

/// An attribute record with enumerated values.
fn mk_valued(t: &str, d: &str, values: Vec<String>) -> (r: AttrInfo)
    ensures
        crate::framework_data::attr_info_view(r) == (t@, d@, values.deep_view()),
{
    AttrInfo { attr_type: t.to_owned(), description: d.to_owned(), values }
}

} // verus!
