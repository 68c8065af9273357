//! Script-side snippets for the element frameworks.

use vstd::prelude::*;

verus! {

/// The script snippet table: trigger word to expansion, indented with `ts`.
pub open spec fn spec_element_js_tags(ts: Seq<char>) -> Seq<(Seq<char>, Seq<char>)> {
    seq![
        ("el-alert"@, "this.$alert('这是一段内容', '标题名称', {\n"@ + ts + "confirmButtonText: '确定',\n"@ + ts + "callback: action => {\n"@ + ts + ts + "\n"@ + ts + "}\n})"@),
        ("el-conform"@, "this.$confirm('此操作将永久删除该文件, 是否继续?', '提示', {\n"@ + ts + "confirmButtonText: '确定',\n"@ + ts + "cancelButtonText: '取消',\n"@ + ts + "type: 'warning'\n}).then(() => {\n"@ + ts + "this.$message({\n"@ + ts + ts + "type: 'success',\n"@ + ts + ts + "message: '删除成功!'\n"@ + ts + "})\n}).catch(() => {\n"@ + ts + "this.$message({\n"@ + ts + ts + "type: 'info',\n"@ + ts + ts + "message: '已取消删除'\n"@ + ts + "})\n})"@),
        ("el-form:clear"@, "this.$refs['${1:form}'].clearValidate()"@),
        ("el-form:valid"@, "this.$refs['${1:formName}'].validate((valid) => {\n"@ + ts + "if (valid) {\n"@ + ts + ts + "$2\n"@ + ts + "} else {\n"@ + ts + ts + "return false\n"@ + ts + "}\n})"@),
        ("el-message"@, "this.$message({\n"@ + ts + "message: '恭喜你，这是一条成功消息',\n"@ + ts + "type: 'success'\n})"@),
        ("el-message:close"@, "this.$message({\n"@ + ts + "message: '恭喜你，这是一条成功消息',\n"@ + ts + "showClose: true,\n"@ + ts + "type: 'success'\n})"@),
        ("el-notify"@, "this.$notify({\n"@ + ts + "title: '标题名称',\n"@ + ts + "message: h('i', {style: 'color: teal'}, 'notify')\n})"@),
        ("el-notify:noclose"@, "this.$notify({\n"@ + ts + "title: '提示',\n"@ + ts + "message: '不会自动关闭的消息',\n"@ + ts + "duration: 0\n})"@),
        ("el-notify:success"@, "this.$notify({\n"@ + ts + "title: '成功',\n"@ + ts + "message: '这是一条成功的提示消息',\n"@ + ts + "type: 'success'\n})"@),
        ("el-prompt"@, "this.$prompt('请输入邮箱', '提示', {\n"@ + ts + "confirmButtonText: '确定',\n"@ + ts + "cancelButtonText: '取消',\n"@ + ts + "inputPattern: '',\n"@ + ts + "inputErrorMessage: ''\n}).then(({ value }) => {\n"@ + ts + "\n}).catch(() => {\n"@ + ts + "\n});"@),
        ("el-rules:array"@, "{ type: 'array', required: true, message: '请至少选择一个', trigger: 'change' }"@),
        ("el-rules:date"@, "{ type: 'date', required: true, message: '请选择日期', trigger: 'change' }"@),
        ("el-rules:minMax"@, "{require: true, min: 3, max: 5, message: '长度在 3 到 5 个字符', trigger: 'blur' }"@),
        ("el-rules:required"@, "{required: true, message:'请输入', trigger: 'blur'}"@),
        ("el-rules:self"@, "{ validator: validatePass, trigger: 'blur' }"@),
        ("el-rules:selfmethod"@, "var validatePass = (rule, value, callback) => {\n"@ + ts + "if (value === '') {\n"@ + ts + ts + "callback(new Error(''));\n"@ + ts + "} else {\n"@ + ts + ts + "callback();\n"@ + ts + "}\n}"@),
        ("el-pagination"@, "handleCurrentChange (pageNum) {\n"@ + ts + "this.pageNum = pageNum\n"@ + ts + "this.fetchList()\n},\nhandleSizeChange(pageSize) {\n"@ + ts + "this.pageSize = pageSize\n"@ + ts + "this.fetchList()\n}"@),
        ("reg-phone"@, "/^[1][3,4,5,7,8][0-9]{9}$/"@),
        ("reg-email"@, "/^[A-Za-zd]+([-_.][A-Za-z\\d]+)*@([A-Za-z\\d]+[-.])+[A-Za-z\\d]{2,4}$/"@),
    ]
}

/// The script snippet table for the element frameworks.
pub fn get_element_ui_js_tags(ts: &str) -> (r: Vec<(String, String)>)
    ensures
        crate::framework_data::str_table_view(r@) == spec_element_js_tags(ts@),
{
    let mut out: Vec<(String, String)> = Vec::new();
    let mut s1 = "this.$alert('这是一段内容', '标题名称', {\n".to_owned();
    s1.append(ts);
    s1.append("confirmButtonText: '确定',\n");
    s1.append(ts);
    s1.append("callback: action => {\n");
    s1.append(ts);
    s1.append(ts);
    s1.append("\n");
    s1.append(ts);
    s1.append("}\n})");
    out.push(("el-alert".to_owned(), s1));
    let mut s2 = "this.$confirm('此操作将永久删除该文件, 是否继续?', '提示', {\n".to_owned();
    s2.append(ts);
    s2.append("confirmButtonText: '确定',\n");
    s2.append(ts);
    s2.append("cancelButtonText: '取消',\n");
    s2.append(ts);
    s2.append("type: 'warning'\n}).then(() => {\n");
    s2.append(ts);
    s2.append("this.$message({\n");
    s2.append(ts);
    s2.append(ts);
    s2.append("type: 'success',\n");
    s2.append(ts);
    s2.append(ts);
    s2.append("message: '删除成功!'\n");
    s2.append(ts);
    s2.append("})\n}).catch(() => {\n");
    s2.append(ts);
    s2.append("this.$message({\n");
    s2.append(ts);
    s2.append(ts);
    s2.append("type: 'info',\n");
    s2.append(ts);
    s2.append(ts);
    s2.append("message: '已取消删除'\n");
    s2.append(ts);
    s2.append("})\n})");
    out.push(("el-conform".to_owned(), s2));
    out.push(("el-form:clear".to_owned(), "this.$refs['${1:form}'].clearValidate()".to_owned()));
    let mut s3 = "this.$refs['${1:formName}'].validate((valid) => {\n".to_owned();
    s3.append(ts);
    s3.append("if (valid) {\n");
    s3.append(ts);
    s3.append(ts);
    s3.append("$2\n");
    s3.append(ts);
    s3.append("} else {\n");
    s3.append(ts);
    s3.append(ts);
    s3.append("return false\n");
    s3.append(ts);
    s3.append("}\n})");
    out.push(("el-form:valid".to_owned(), s3));
    let mut s4 = "this.$message({\n".to_owned();
    s4.append(ts);
    s4.append("message: '恭喜你，这是一条成功消息',\n");
    s4.append(ts);
    s4.append("type: 'success'\n})");
    out.push(("el-message".to_owned(), s4));
    let mut s5 = "this.$message({\n".to_owned();
    s5.append(ts);
    s5.append("message: '恭喜你，这是一条成功消息',\n");
    s5.append(ts);
    s5.append("showClose: true,\n");
    s5.append(ts);
    s5.append("type: 'success'\n})");
    out.push(("el-message:close".to_owned(), s5));
    let mut s6 = "this.$notify({\n".to_owned();
    s6.append(ts);
    s6.append("title: '标题名称',\n");
    s6.append(ts);
    s6.append("message: h('i', {style: 'color: teal'}, 'notify')\n})");
    out.push(("el-notify".to_owned(), s6));
    let mut s7 = "this.$notify({\n".to_owned();
    s7.append(ts);
    s7.append("title: '提示',\n");
    s7.append(ts);
    s7.append("message: '不会自动关闭的消息',\n");
    s7.append(ts);
    s7.append("duration: 0\n})");
    out.push(("el-notify:noclose".to_owned(), s7));
    let mut s8 = "this.$notify({\n".to_owned();
    s8.append(ts);
    s8.append("title: '成功',\n");
    s8.append(ts);
    s8.append("message: '这是一条成功的提示消息',\n");
    s8.append(ts);
    s8.append("type: 'success'\n})");
    out.push(("el-notify:success".to_owned(), s8));
    let mut s9 = "this.$prompt('请输入邮箱', '提示', {\n".to_owned();
    s9.append(ts);
    s9.append("confirmButtonText: '确定',\n");
    s9.append(ts);
    s9.append("cancelButtonText: '取消',\n");
    s9.append(ts);
    s9.append("inputPattern: '',\n");
    s9.append(ts);
    s9.append("inputErrorMessage: ''\n}).then(({ value }) => {\n");
    s9.append(ts);
    s9.append("\n}).catch(() => {\n");
    s9.append(ts);
    s9.append("\n});");
    out.push(("el-prompt".to_owned(), s9));
    out.push(("el-rules:array".to_owned(), "{ type: 'array', required: true, message: '请至少选择一个', trigger: 'change' }".to_owned()));
    out.push(("el-rules:date".to_owned(), "{ type: 'date', required: true, message: '请选择日期', trigger: 'change' }".to_owned()));
    out.push(("el-rules:minMax".to_owned(), "{require: true, min: 3, max: 5, message: '长度在 3 到 5 个字符', trigger: 'blur' }".to_owned()));
    out.push(("el-rules:required".to_owned(), "{required: true, message:'请输入', trigger: 'blur'}".to_owned()));
    out.push(("el-rules:self".to_owned(), "{ validator: validatePass, trigger: 'blur' }".to_owned()));
    let mut s10 = "var validatePass = (rule, value, callback) => {\n".to_owned();
    s10.append(ts);
    s10.append("if (value === '') {\n");
    s10.append(ts);
    s10.append(ts);
    s10.append("callback(new Error(''));\n");
    s10.append(ts);
    s10.append("} else {\n");
    s10.append(ts);
    s10.append(ts);
    s10.append("callback();\n");
    s10.append(ts);
    s10.append("}\n}");
    out.push(("el-rules:selfmethod".to_owned(), s10));
    let mut s11 = "handleCurrentChange (pageNum) {\n".to_owned();
    s11.append(ts);
    s11.append("this.pageNum = pageNum\n");
    s11.append(ts);
    s11.append("this.fetchList()\n},\nhandleSizeChange(pageSize) {\n");
    s11.append(ts);
    s11.append("this.pageSize = pageSize\n");
    s11.append(ts);
    s11.append("this.fetchList()\n}");
    out.push(("el-pagination".to_owned(), s11));
    out.push(("reg-phone".to_owned(), "/^[1][3,4,5,7,8][0-9]{9}$/".to_owned()));
    out.push(("reg-email".to_owned(), "/^[A-Za-zd]+([-_.][A-Za-z\\d]+)*@([A-Za-z\\d]+[-.])+[A-Za-z\\d]{2,4}$/".to_owned()));
    proof {
        assert(crate::framework_data::str_table_view(out@) =~~= spec_element_js_tags(ts@));
    }
    out
}

} // verus!
